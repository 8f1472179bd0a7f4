//! The fixed report schema: sections, field names and the concepts behind them.
use vstd::prelude::*;
use crate::facts::FactMap;
use crate::normalize::{CanonicalReport, FieldRule, Rule, RuleView, normalize, report_follows, schema_view};

verus! {

/// The canonical schema: balance sheet, income statement, cash flow, leases,
/// derivatives, equity detail and other comprehensive income, each field
/// copied from one concept (gross profit is revenue less cost of revenue),
/// then the five ratios.
pub open spec fn canonical_rows() -> Seq<(Seq<char>, Seq<char>, RuleView)> {
    seq![
        ("balance_sheet"@, "assets"@, RuleView::Fact("us-gaap:Assets"@)),
        ("balance_sheet"@, "current_assets"@, RuleView::Fact("us-gaap:AssetsCurrent"@)),
        ("balance_sheet"@, "cash_and_cash_equivalents"@, RuleView::Fact("us-gaap:CashAndCashEquivalentsAtCarryingValue"@)),
        ("balance_sheet"@, "accounts_receivable"@, RuleView::Fact("us-gaap:AccountsReceivableNetCurrent"@)),
        ("balance_sheet"@, "inventory"@, RuleView::Fact("us-gaap:InventoryNet"@)),
        ("balance_sheet"@, "marketable_securities_current"@, RuleView::Fact("us-gaap:MarketableSecuritiesCurrent"@)),
        ("balance_sheet"@, "marketable_securities_noncurrent"@, RuleView::Fact("us-gaap:MarketableSecuritiesNoncurrent"@)),
        ("balance_sheet"@, "property_plant_equipment"@, RuleView::Fact("us-gaap:PropertyPlantAndEquipmentAndFinanceLeaseRightOfUseAssetBeforeAccumulatedDepreciationAndAmortization"@)),
        ("balance_sheet"@, "accumulated_depreciation"@, RuleView::Fact("us-gaap:PropertyPlantAndEquipmentAndFinanceLeaseRightOfUseAssetAccumulatedDepreciationAndAmortization"@)),
        ("balance_sheet"@, "goodwill"@, RuleView::Fact("us-gaap:Goodwill"@)),
        ("balance_sheet"@, "intangible_assets"@, RuleView::Fact("us-gaap:OtherLongTermInvestments"@)),
        ("balance_sheet"@, "other_assets_current"@, RuleView::Fact("us-gaap:OtherAssetsCurrent"@)),
        ("balance_sheet"@, "other_assets_noncurrent"@, RuleView::Fact("us-gaap:OtherAssetsNoncurrent"@)),
        ("balance_sheet"@, "liabilities"@, RuleView::Fact("us-gaap:Liabilities"@)),
        ("balance_sheet"@, "current_liabilities"@, RuleView::Fact("us-gaap:LiabilitiesCurrent"@)),
        ("balance_sheet"@, "long_term_debt"@, RuleView::Fact("us-gaap:LongTermDebtNoncurrent"@)),
        ("balance_sheet"@, "accounts_payable"@, RuleView::Fact("us-gaap:AccountsPayableCurrent"@)),
        ("balance_sheet"@, "accrued_expenses"@, RuleView::Fact("us-gaap:AccruedLiabilitiesCurrent"@)),
        ("balance_sheet"@, "operating_lease_liability_current"@, RuleView::Fact("us-gaap:OperatingLeaseLiabilityCurrent"@)),
        ("balance_sheet"@, "operating_lease_liability_noncurrent"@, RuleView::Fact("us-gaap:OperatingLeaseLiabilityNoncurrent"@)),
        ("balance_sheet"@, "finance_lease_liability_current"@, RuleView::Fact("us-gaap:FinanceLeaseLiabilityCurrent"@)),
        ("balance_sheet"@, "finance_lease_liability_noncurrent"@, RuleView::Fact("us-gaap:FinanceLeaseLiabilityNoncurrent"@)),
        ("balance_sheet"@, "equity"@, RuleView::Fact("us-gaap:StockholdersEquity"@)),
        ("balance_sheet"@, "retained_earnings"@, RuleView::Fact("us-gaap:RetainedEarningsAccumulatedDeficit"@)),
        ("balance_sheet"@, "common_stock"@, RuleView::Fact("us-gaap:CommonStocksIncludingAdditionalPaidInCapital"@)),
        ("balance_sheet"@, "preferred_stock"@, RuleView::Fact("us-gaap:PreferredStockParOrStatedValuePerShare"@)),
        ("income_statement"@, "revenue"@, RuleView::Fact("us-gaap:Revenues"@)),
        ("income_statement"@, "cost_of_revenue"@, RuleView::Fact("us-gaap:CostOfRevenue"@)),
        ("income_statement"@, "gross_profit"@, RuleView::Difference("us-gaap:Revenues"@, "us-gaap:CostOfRevenue"@)),
        ("income_statement"@, "operating_expenses"@, RuleView::Fact("us-gaap:OperatingExpenses"@)),
        ("income_statement"@, "research_and_development"@, RuleView::Fact("us-gaap:ResearchAndDevelopmentExpense"@)),
        ("income_statement"@, "selling_general_administrative"@, RuleView::Fact("us-gaap:SellingAndMarketingExpense"@)),
        ("income_statement"@, "operating_income"@, RuleView::Fact("us-gaap:OperatingIncomeLoss"@)),
        ("income_statement"@, "interest_expense"@, RuleView::Fact("us-gaap:InterestExpenseNonoperating"@)),
        ("income_statement"@, "income_before_tax"@, RuleView::Fact("us-gaap:IncomeLossFromContinuingOperationsBeforeIncomeTaxesExtraordinaryItemsNoncontrollingInterest"@)),
        ("income_statement"@, "income_tax_expense"@, RuleView::Fact("us-gaap:IncomeTaxExpenseBenefit"@)),
        ("income_statement"@, "net_income"@, RuleView::Fact("us-gaap:NetIncomeLoss"@)),
        ("income_statement"@, "noncontrolling_interest"@, RuleView::Fact("us-gaap:NoncontrollingInterestInVariableInterestEntity"@)),
        ("income_statement"@, "other_nonoperating_income"@, RuleView::Fact("us-gaap:OtherNonoperatingIncomeExpense"@)),
        ("income_statement"@, "equity_investment_gain_loss"@, RuleView::Fact("us-gaap:EquitySecuritiesFvNiGainLoss"@)),
        ("cash_flow"@, "net_cash_from_operating"@, RuleView::Fact("us-gaap:NetCashProvidedByUsedInOperatingActivities"@)),
        ("cash_flow"@, "net_cash_from_investing"@, RuleView::Fact("us-gaap:NetCashProvidedByUsedInInvestingActivities"@)),
        ("cash_flow"@, "net_cash_from_financing"@, RuleView::Fact("us-gaap:NetCashProvidedByUsedInFinancingActivities"@)),
        ("cash_flow"@, "capital_expenditures"@, RuleView::Fact("us-gaap:PaymentsToAcquirePropertyPlantAndEquipment"@)),
        ("cash_flow"@, "dividends_paid"@, RuleView::Fact("us-gaap:PaymentsOfDividends"@)),
        ("cash_flow"@, "stock_repurchases"@, RuleView::Fact("us-gaap:PaymentsForRepurchaseOfCommonStock"@)),
        ("cash_flow"@, "debt_issuance_proceeds"@, RuleView::Fact("us-gaap:ProceedsFromDebtNetOfIssuanceCosts"@)),
        ("cash_flow"@, "equity_issuance_proceeds"@, RuleView::Fact("us-gaap:ProceedsFromMinorityShareholders"@)),
        ("leases"@, "finance_lease_asset"@, RuleView::Fact("us-gaap:FinanceLeaseRightOfUseAsset"@)),
        ("leases"@, "finance_lease_amortization"@, RuleView::Fact("us-gaap:FinanceLeaseRightOfUseAssetAmortization"@)),
        ("leases"@, "operating_lease_asset"@, RuleView::Fact("us-gaap:OperatingLeaseRightOfUseAsset"@)),
        ("leases"@, "operating_lease_cost"@, RuleView::Fact("us-gaap:OperatingLeaseCost"@)),
        ("derivatives"@, "derivative_assets"@, RuleView::Fact("us-gaap:DerivativeAssets"@)),
        ("derivatives"@, "derivative_liabilities"@, RuleView::Fact("us-gaap:DerivativeLiabilities"@)),
        ("derivatives"@, "derivative_gain_loss"@, RuleView::Fact("us-gaap:DerivativeGainLossOnDerivativeNet"@)),
        ("equity"@, "share_based_compensation"@, RuleView::Fact("us-gaap:ShareBasedCompensation"@)),
        ("equity"@, "stock_issued"@, RuleView::Fact("us-gaap:SharesIssued"@)),
        ("equity"@, "stock_repurchased"@, RuleView::Fact("us-gaap:StockRepurchasedAndRetiredDuringPeriodShares"@)),
        ("equity"@, "additional_paid_in_capital"@, RuleView::Fact("us-gaap:CommonStocksIncludingAdditionalPaidInCapital"@)),
        ("other_comprehensive_income"@, "aoci_net_of_tax"@, RuleView::Fact("us-gaap:AccumulatedOtherComprehensiveIncomeLossNetOfTax"@)),
        ("other_comprehensive_income"@, "foreign_currency_translation"@, RuleView::Fact("us-gaap:OtherComprehensiveIncomeLossForeignCurrencyTransactionAndTranslationAdjustmentNetOfTax"@)),
        ("other_comprehensive_income"@, "cash_flow_hedges"@, RuleView::Fact("us-gaap:OtherComprehensiveIncomeLossCashFlowHedgeGainLossAfterReclassificationAndTax"@)),
        ("other_comprehensive_income"@, "unrealized_gains_on_securities"@, RuleView::Fact("us-gaap:OtherComprehensiveIncomeUnrealizedHoldingGainLossOnSecuritiesArisingDuringPeriodNetOfTax"@)),
        ("ratios"@, "current_ratio"@, RuleView::Ratio("us-gaap:AssetsCurrent"@, None, "us-gaap:LiabilitiesCurrent"@)),
        ("ratios"@, "debt_to_equity"@, RuleView::Ratio("us-gaap:Liabilities"@, None, "us-gaap:StockholdersEquity"@)),
        ("ratios"@, "gross_margin"@, RuleView::Ratio("us-gaap:Revenues"@, Some("us-gaap:CostOfRevenue"@), "us-gaap:Revenues"@)),
        ("ratios"@, "operating_margin"@, RuleView::Ratio("us-gaap:OperatingIncomeLoss"@, None, "us-gaap:Revenues"@)),
        ("ratios"@, "net_margin"@, RuleView::Ratio("us-gaap:NetIncomeLoss"@, None, "us-gaap:Revenues"@)),
    ]
}

fn fact_row(section: &str, name: &str, concept: &str) -> (r: FieldRule)
    ensures
        r@ == (section@, name@, RuleView::Fact(concept@)),
{
    FieldRule { section: section.to_owned(), name: name.to_owned(), rule: Rule::Fact(concept.to_owned()) }
}

fn difference_row(section: &str, name: &str, minuend: &str, subtrahend: &str) -> (r: FieldRule)
    ensures
        r@ == (section@, name@, RuleView::Difference(minuend@, subtrahend@)),
{
    FieldRule {
        section: section.to_owned(),
        name: name.to_owned(),
        rule: Rule::Difference(minuend.to_owned(), subtrahend.to_owned()),
    }
}

fn ratio_row(section: &str, name: &str, numerator: &str, subtracted: Option<&str>, denominator: &str) -> (r: FieldRule)
    ensures
        r@ == (
            section@,
            name@,
            RuleView::Ratio(
                numerator@,
                match subtracted {
                    Some(x) => Some(x@),
                    None => None,
                },
                denominator@,
            ),
        ),
{
    let sub = match subtracted {
        Some(x) => Some(x.to_owned()),
        None => None,
    };
    FieldRule {
        section: section.to_owned(),
        name: name.to_owned(),
        rule: Rule::Ratio(numerator.to_owned(), sub, denominator.to_owned()),
    }
}

/// The canonical schema, as rows to normalize with.
pub fn canonical_schema() -> (r: Vec<FieldRule>)
    ensures
        schema_view(r@) == canonical_rows(),
{
    let r = vec![
        fact_row("balance_sheet", "assets", "us-gaap:Assets"),
        fact_row("balance_sheet", "current_assets", "us-gaap:AssetsCurrent"),
        fact_row("balance_sheet", "cash_and_cash_equivalents", "us-gaap:CashAndCashEquivalentsAtCarryingValue"),
        fact_row("balance_sheet", "accounts_receivable", "us-gaap:AccountsReceivableNetCurrent"),
        fact_row("balance_sheet", "inventory", "us-gaap:InventoryNet"),
        fact_row("balance_sheet", "marketable_securities_current", "us-gaap:MarketableSecuritiesCurrent"),
        fact_row("balance_sheet", "marketable_securities_noncurrent", "us-gaap:MarketableSecuritiesNoncurrent"),
        fact_row("balance_sheet", "property_plant_equipment", "us-gaap:PropertyPlantAndEquipmentAndFinanceLeaseRightOfUseAssetBeforeAccumulatedDepreciationAndAmortization"),
        fact_row("balance_sheet", "accumulated_depreciation", "us-gaap:PropertyPlantAndEquipmentAndFinanceLeaseRightOfUseAssetAccumulatedDepreciationAndAmortization"),
        fact_row("balance_sheet", "goodwill", "us-gaap:Goodwill"),
        fact_row("balance_sheet", "intangible_assets", "us-gaap:OtherLongTermInvestments"),
        fact_row("balance_sheet", "other_assets_current", "us-gaap:OtherAssetsCurrent"),
        fact_row("balance_sheet", "other_assets_noncurrent", "us-gaap:OtherAssetsNoncurrent"),
        fact_row("balance_sheet", "liabilities", "us-gaap:Liabilities"),
        fact_row("balance_sheet", "current_liabilities", "us-gaap:LiabilitiesCurrent"),
        fact_row("balance_sheet", "long_term_debt", "us-gaap:LongTermDebtNoncurrent"),
        fact_row("balance_sheet", "accounts_payable", "us-gaap:AccountsPayableCurrent"),
        fact_row("balance_sheet", "accrued_expenses", "us-gaap:AccruedLiabilitiesCurrent"),
        fact_row("balance_sheet", "operating_lease_liability_current", "us-gaap:OperatingLeaseLiabilityCurrent"),
        fact_row("balance_sheet", "operating_lease_liability_noncurrent", "us-gaap:OperatingLeaseLiabilityNoncurrent"),
        fact_row("balance_sheet", "finance_lease_liability_current", "us-gaap:FinanceLeaseLiabilityCurrent"),
        fact_row("balance_sheet", "finance_lease_liability_noncurrent", "us-gaap:FinanceLeaseLiabilityNoncurrent"),
        fact_row("balance_sheet", "equity", "us-gaap:StockholdersEquity"),
        fact_row("balance_sheet", "retained_earnings", "us-gaap:RetainedEarningsAccumulatedDeficit"),
        fact_row("balance_sheet", "common_stock", "us-gaap:CommonStocksIncludingAdditionalPaidInCapital"),
        fact_row("balance_sheet", "preferred_stock", "us-gaap:PreferredStockParOrStatedValuePerShare"),
        fact_row("income_statement", "revenue", "us-gaap:Revenues"),
        fact_row("income_statement", "cost_of_revenue", "us-gaap:CostOfRevenue"),
        difference_row("income_statement", "gross_profit", "us-gaap:Revenues", "us-gaap:CostOfRevenue"),
        fact_row("income_statement", "operating_expenses", "us-gaap:OperatingExpenses"),
        fact_row("income_statement", "research_and_development", "us-gaap:ResearchAndDevelopmentExpense"),
        fact_row("income_statement", "selling_general_administrative", "us-gaap:SellingAndMarketingExpense"),
        fact_row("income_statement", "operating_income", "us-gaap:OperatingIncomeLoss"),
        fact_row("income_statement", "interest_expense", "us-gaap:InterestExpenseNonoperating"),
        fact_row("income_statement", "income_before_tax", "us-gaap:IncomeLossFromContinuingOperationsBeforeIncomeTaxesExtraordinaryItemsNoncontrollingInterest"),
        fact_row("income_statement", "income_tax_expense", "us-gaap:IncomeTaxExpenseBenefit"),
        fact_row("income_statement", "net_income", "us-gaap:NetIncomeLoss"),
        fact_row("income_statement", "noncontrolling_interest", "us-gaap:NoncontrollingInterestInVariableInterestEntity"),
        fact_row("income_statement", "other_nonoperating_income", "us-gaap:OtherNonoperatingIncomeExpense"),
        fact_row("income_statement", "equity_investment_gain_loss", "us-gaap:EquitySecuritiesFvNiGainLoss"),
        fact_row("cash_flow", "net_cash_from_operating", "us-gaap:NetCashProvidedByUsedInOperatingActivities"),
        fact_row("cash_flow", "net_cash_from_investing", "us-gaap:NetCashProvidedByUsedInInvestingActivities"),
        fact_row("cash_flow", "net_cash_from_financing", "us-gaap:NetCashProvidedByUsedInFinancingActivities"),
        fact_row("cash_flow", "capital_expenditures", "us-gaap:PaymentsToAcquirePropertyPlantAndEquipment"),
        fact_row("cash_flow", "dividends_paid", "us-gaap:PaymentsOfDividends"),
        fact_row("cash_flow", "stock_repurchases", "us-gaap:PaymentsForRepurchaseOfCommonStock"),
        fact_row("cash_flow", "debt_issuance_proceeds", "us-gaap:ProceedsFromDebtNetOfIssuanceCosts"),
        fact_row("cash_flow", "equity_issuance_proceeds", "us-gaap:ProceedsFromMinorityShareholders"),
        fact_row("leases", "finance_lease_asset", "us-gaap:FinanceLeaseRightOfUseAsset"),
        fact_row("leases", "finance_lease_amortization", "us-gaap:FinanceLeaseRightOfUseAssetAmortization"),
        fact_row("leases", "operating_lease_asset", "us-gaap:OperatingLeaseRightOfUseAsset"),
        fact_row("leases", "operating_lease_cost", "us-gaap:OperatingLeaseCost"),
        fact_row("derivatives", "derivative_assets", "us-gaap:DerivativeAssets"),
        fact_row("derivatives", "derivative_liabilities", "us-gaap:DerivativeLiabilities"),
        fact_row("derivatives", "derivative_gain_loss", "us-gaap:DerivativeGainLossOnDerivativeNet"),
        fact_row("equity", "share_based_compensation", "us-gaap:ShareBasedCompensation"),
        fact_row("equity", "stock_issued", "us-gaap:SharesIssued"),
        fact_row("equity", "stock_repurchased", "us-gaap:StockRepurchasedAndRetiredDuringPeriodShares"),
        fact_row("equity", "additional_paid_in_capital", "us-gaap:CommonStocksIncludingAdditionalPaidInCapital"),
        fact_row("other_comprehensive_income", "aoci_net_of_tax", "us-gaap:AccumulatedOtherComprehensiveIncomeLossNetOfTax"),
        fact_row("other_comprehensive_income", "foreign_currency_translation", "us-gaap:OtherComprehensiveIncomeLossForeignCurrencyTransactionAndTranslationAdjustmentNetOfTax"),
        fact_row("other_comprehensive_income", "cash_flow_hedges", "us-gaap:OtherComprehensiveIncomeLossCashFlowHedgeGainLossAfterReclassificationAndTax"),
        fact_row("other_comprehensive_income", "unrealized_gains_on_securities", "us-gaap:OtherComprehensiveIncomeUnrealizedHoldingGainLossOnSecuritiesArisingDuringPeriodNetOfTax"),
        ratio_row("ratios", "current_ratio", "us-gaap:AssetsCurrent", None, "us-gaap:LiabilitiesCurrent"),
        ratio_row("ratios", "debt_to_equity", "us-gaap:Liabilities", None, "us-gaap:StockholdersEquity"),
        ratio_row("ratios", "gross_margin", "us-gaap:Revenues", Some("us-gaap:CostOfRevenue"), "us-gaap:Revenues"),
        ratio_row("ratios", "operating_margin", "us-gaap:OperatingIncomeLoss", None, "us-gaap:Revenues"),
        ratio_row("ratios", "net_margin", "us-gaap:NetIncomeLoss", None, "us-gaap:Revenues"),
    ];
    assert(schema_view(r@) =~= canonical_rows());
    r
}

/// The report of a fact map under the canonical schema.
pub fn map_us_gaap_to_rich(data: &FactMap) -> (r: CanonicalReport)
    requires
        data.wf(),
    ensures
        report_follows(r, data@, canonical_rows()),
{
    normalize(data, &canonical_schema())
}

} // verus!
