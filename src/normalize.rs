//! Mapping of facts onto the fixed report schema, with guarded ratios.
use vstd::prelude::*;
use crate::facts::FactMap;
use crate::numeric::{denotes_zero, zero_literal};
use crate::text::{chars_of, same_text};

verus! {

/// How one field of the report is computed from the facts.
#[derive(Debug)]
pub enum Rule {
    /// The value of one concept; zero when it is absent.
    Fact(String),
    /// The first concept minus the second, an absent one reading as zero.
    Difference(String, String),
    /// `(numerator - subtracted) / denominator` (without a subtracted concept:
    /// `numerator / denominator`); zero unless every concept named is present
    /// and the denominator is not zero.
    Ratio(String, Option<String>, String),
}

/// The model of a [`Rule`].
pub enum RuleView {
    Fact(Seq<char>),
    Difference(Seq<char>, Seq<char>),
    Ratio(Seq<char>, Option<Seq<char>>, Seq<char>),
}

impl View for Rule {
    type V = RuleView;

    open spec fn view(&self) -> RuleView {
        match self {
            Rule::Fact(c) => RuleView::Fact(c@),
            Rule::Difference(a, b) => RuleView::Difference(a@, b@),
            Rule::Ratio(n, s, d) => RuleView::Ratio(n@, opt_view(*s), d@),
        }
    }
}

/// One row of the schema: the section and name of a field, and its rule.
#[derive(Debug)]
pub struct FieldRule {
    pub section: String,
    pub name: String,
    pub rule: Rule,
}

impl View for FieldRule {
    type V = (Seq<char>, Seq<char>, RuleView);

    open spec fn view(&self) -> (Seq<char>, Seq<char>, RuleView) {
        (self.section@, self.name@, self.rule@)
    }
}

/// The model of a schema.
pub open spec fn schema_view(schema: Seq<FieldRule>) -> Seq<(Seq<char>, Seq<char>, RuleView)> {
    schema.map_values(|f: FieldRule| f@)
}

/// The value of one report field, as exact arithmetic over reported literals.
#[derive(Debug)]
pub enum Figure {
    /// Zero.
    Zero,
    /// A reported literal.
    Fact(String),
    /// The first minus the second, an absent one reading as zero.
    Difference(Option<String>, Option<String>),
    /// `(numerator - subtracted) / denominator`, the denominator not zero.
    Quotient(String, Option<String>, String),
}

/// The model of a [`Figure`].
pub enum FigureView {
    Zero,
    Fact(Seq<char>),
    Difference(Option<Seq<char>>, Option<Seq<char>>),
    Quotient(Seq<char>, Option<Seq<char>>, Seq<char>),
}

pub open spec fn opt_view(o: Option<String>) -> Option<Seq<char>> {
    match o {
        Some(s) => Some(s@),
        None => None,
    }
}

impl View for Figure {
    type V = FigureView;

    open spec fn view(&self) -> FigureView {
        match self {
            Figure::Zero => FigureView::Zero,
            Figure::Fact(v) => FigureView::Fact(v@),
            Figure::Difference(a, b) => FigureView::Difference(opt_view(*a), opt_view(*b)),
            Figure::Quotient(n, s, d) => FigureView::Quotient(n@, opt_view(*s), d@),
        }
    }
}

/// One field of the report.
#[derive(Debug)]
pub struct Field {
    pub section: String,
    pub name: String,
    pub figure: Figure,
}

/// The report: one field for each row of the schema it was built with.
#[derive(Debug)]
pub struct CanonicalReport {
    pub fields: Vec<Field>,
}

impl CanonicalReport {
    /// The figure of the first field with this section and name.
    pub fn figure(&self, section: &str, name: &str) -> (r: Option<&Figure>)
        ensures
            match r {
                Some(f) => exists|i: int|
                    0 <= i < self.fields.len() && self.fields@[i].section@ == section@
                        && self.fields@[i].name@ == name@ && self.fields@[i].figure == *f
                        && forall|j: int|
                        0 <= j < i ==> !(#[trigger] self.fields@[j].section@ == section@
                            && self.fields@[j].name@ == name@),
                None => forall|j: int|
                    0 <= j < self.fields.len() ==> !(#[trigger] self.fields@[j].section@
                        == section@ && self.fields@[j].name@ == name@),
            },
    {
        let mut i: usize = 0;
        while i < self.fields.len()
            invariant
                i <= self.fields.len(),
                forall|j: int|
                    0 <= j < i ==> !(#[trigger] self.fields@[j].section@ == section@
                        && self.fields@[j].name@ == name@),
            decreases self.fields.len() - i,
        {
            let f = &self.fields[i];
            if same_text(f.section.as_str(), section) && same_text(f.name.as_str(), name) {
                return Some(&f.figure);
            }
            i = i + 1;
        }
        None
    }
}

/// The value of `key` in `facts`, if present.
pub open spec fn lookup(facts: Map<Seq<char>, Seq<char>>, key: Seq<char>) -> Option<Seq<char>> {
    if facts.contains_key(key) {
        Some(facts[key])
    } else {
        None
    }
}

/// The figure that `rule` gives over `facts`.
pub open spec fn figure_of(facts: Map<Seq<char>, Seq<char>>, rule: RuleView) -> FigureView {
    match rule {
        RuleView::Fact(c) => match lookup(facts, c) {
            Some(v) => FigureView::Fact(v),
            None => FigureView::Zero,
        },
        RuleView::Difference(a, b) => if !facts.contains_key(a) && !facts.contains_key(b) {
            FigureView::Zero
        } else {
            FigureView::Difference(lookup(facts, a), lookup(facts, b))
        },
        RuleView::Ratio(n, s, d) => if facts.contains_key(n) && facts.contains_key(d) && !denotes_zero(
            facts[d],
        ) && (s is None || facts.contains_key(s->0)) {
            FigureView::Quotient(
                facts[n],
                match s {
                    Some(x) => Some(facts[x]),
                    None => None,
                },
                facts[d],
            )
        } else {
            FigureView::Zero
        },
    }
}

/// `report` has one field for each row of `schema`, with the row's section
/// and name and the figure its rule gives over `facts`.
pub open spec fn report_follows(
    report: CanonicalReport,
    facts: Map<Seq<char>, Seq<char>>,
    schema: Seq<(Seq<char>, Seq<char>, RuleView)>,
) -> bool {
    &&& report.fields.len() == schema.len()
    &&& forall|i: int|
        0 <= i < schema.len() ==> {
            &&& (#[trigger] report.fields@[i]).section@ == schema[i].0
            &&& report.fields@[i].name@ == schema[i].1
            &&& report.fields@[i].figure@ == figure_of(facts, schema[i].2)
        }
}

fn lookup_fact(facts: &FactMap, key: &String) -> (r: Option<String>)
    requires
        facts.wf(),
    ensures
        opt_view(r) == lookup(facts@, key@),
{
    facts.get(key)
}

/// The figure of one rule.
pub fn figure_for(facts: &FactMap, rule: &Rule) -> (r: Figure)
    requires
        facts.wf(),
    ensures
        r@ == figure_of(facts@, rule@),
{
    match rule {
        Rule::Fact(c) => match lookup_fact(facts, c) {
            Some(v) => Figure::Fact(v),
            None => Figure::Zero,
        },
        Rule::Difference(a, b) => {
            let x = lookup_fact(facts, a);
            let y = lookup_fact(facts, b);
            if x.is_none() && y.is_none() {
                Figure::Zero
            } else {
                Figure::Difference(x, y)
            }
        },
        Rule::Ratio(n, s, d) => {
            let num = lookup_fact(facts, n);
            let den = lookup_fact(facts, d);
            let sub = match s {
                Some(x) => match lookup_fact(facts, x) {
                    Some(v) => Some(Some(v)),
                    None => None,
                },
                None => Some(None),
            };
            match (num, den, sub) {
                (Some(a), Some(b), Some(c)) => {
                    if zero_literal(&chars_of(b.as_str())) {
                        Figure::Zero
                    } else {
                        Figure::Quotient(a, c, b)
                    }
                },
                _ => Figure::Zero,
            }
        },
    }
}

/// Builds the report for `facts`: one field per row of `schema`, in order.
pub fn normalize(facts: &FactMap, schema: &Vec<FieldRule>) -> (r: CanonicalReport)
    requires
        facts.wf(),
    ensures
        report_follows(r, facts@, schema_view(schema@)),
{
    let mut fields: Vec<Field> = Vec::new();
    let mut i: usize = 0;
    while i < schema.len()
        invariant
            facts.wf(),
            i <= schema.len(),
            fields.len() == i,
            forall|j: int|
                0 <= j < i ==> {
                    &&& (#[trigger] fields@[j]).section@ == schema@[j].section@
                    &&& fields@[j].name@ == schema@[j].name@
                    &&& fields@[j].figure@ == figure_of(facts@, schema@[j].rule@)
                },
        decreases schema.len() - i,
    {
        let row = &schema[i];
        let figure = figure_for(facts, &row.rule);
        fields.push(Field { section: row.section.clone(), name: row.name.clone(), figure });
        i = i + 1;
    }
    let r = CanonicalReport { fields };
    assert forall|i: int| 0 <= i < schema.len() implies #[trigger] schema_view(schema@)[i] == schema@[i]@ by {}
    r
}

/// With no facts at all, every field of a report is zero, whatever the schema:
/// no field is ever missing.
pub proof fn lemma_no_facts_all_zero(
    report: CanonicalReport,
    schema: Seq<(Seq<char>, Seq<char>, RuleView)>,
)
    requires
        report_follows(report, Map::empty(), schema),
    ensures
        report.fields.len() == schema.len(),
        forall|i: int|
            0 <= i < report.fields.len() ==> (#[trigger] report.fields@[i]).figure@
                == FigureView::Zero,
{
    assert forall|i: int| 0 <= i < report.fields.len() implies (
    #[trigger] report.fields@[i]).figure@ == FigureView::Zero by {
        assert(report.fields@[i].figure@ == figure_of(Map::empty(), schema[i].2));
    }
}

/// A ratio is zero when one of its concepts is absent or its denominator
/// denotes zero; a quotient is only ever formed over a denominator that does
/// not denote zero.
pub proof fn lemma_ratio_safe_division(
    facts: Map<Seq<char>, Seq<char>>,
    numerator: Seq<char>,
    subtracted: Option<Seq<char>>,
    denominator: Seq<char>,
)
    ensures
        ({
            let f = figure_of(facts, RuleView::Ratio(numerator, subtracted, denominator));
            &&& (!facts.contains_key(numerator) || !facts.contains_key(denominator)
                || denotes_zero(facts[denominator])) ==> f == FigureView::Zero
            &&& f is Quotient ==> !denotes_zero(f->Quotient_2)
        }),
{
}

} // verus!
