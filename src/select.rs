//! Filing selection: which filings of a company's history answer a request,
//! and where each one's instance document lies.
use vstd::prelude::*;
use crate::text::{ends_with, chars_of, push_char, same_text, word_at, string_of};

verus! {

/// The kinds of periodic report that can be requested.
#[derive(PartialEq, Eq, Structural, Clone, Copy, Debug)]
pub enum Category {
    Quarterly,
    Annual,
}

/// Why a request for filings cannot be answered, in whole or for one filing.
#[derive(Debug)]
pub enum SelectionError {
    /// The category is neither `quarterly` nor `annual`.
    InvalidPeriod,
    /// The history holds no filing of this form.
    NoMatchingFilings(String),
    /// A filing lists no XBRL instance document.
    NoInstanceDocument,
}

pub open spec fn quarterly_word() -> Seq<char> {
    seq!['q', 'u', 'a', 'r', 't', 'e', 'r', 'l', 'y']
}

pub open spec fn annual_word() -> Seq<char> {
    seq!['a', 'n', 'n', 'u', 'a', 'l']
}

/// The category a request names, if any.
pub open spec fn category_named(s: Seq<char>) -> Option<Category> {
    if s == quarterly_word() {
        Some(Category::Quarterly)
    } else if s == annual_word() {
        Some(Category::Annual)
    } else {
        None
    }
}

/// The form label of a category.
pub open spec fn form_of(c: Category) -> Seq<char> {
    match c {
        Category::Quarterly => seq!['1', '0', '-', 'Q'],
        Category::Annual => seq!['1', '0', '-', 'K'],
    }
}

/// Reads a category: `quarterly` or `annual`.
pub fn parse_category(s: &str) -> (r: Result<Category, SelectionError>)
    ensures
        match category_named(s@) {
            Some(c) => r == Ok::<Category, SelectionError>(c),
            None => r is Err && r->Err_0 is InvalidPeriod,
        },
{
    proof {
        reveal_strlit("quarterly");
        reveal_strlit("annual");
    }
    assert("quarterly"@ =~= quarterly_word());
    assert("annual"@ =~= annual_word());
    if same_text(s, "quarterly") {
        Ok(Category::Quarterly)
    } else if same_text(s, "annual") {
        Ok(Category::Annual)
    } else {
        Err(SelectionError::InvalidPeriod)
    }
}

/// The form label of a category: `10-Q` for quarterly, `10-K` for annual.
pub fn form_label(c: Category) -> (r: String)
    ensures
        r@ == form_of(c),
{
    let cs = match c {
        Category::Quarterly => vec!['1', '0', '-', 'Q'],
        Category::Annual => vec!['1', '0', '-', 'K'],
    };
    assert(cs@ =~= form_of(c));
    string_of(&cs)
}

/// A company's filing history: parallel columns, one row per filing, most
/// recent first.
#[derive(Debug)]
pub struct FilingHistory {
    forms: Vec<String>,
    accession_numbers: Vec<String>,
    filing_dates: Vec<String>,
    primary_documents: Vec<String>,
}

impl FilingHistory {
    /// All columns have one entry per filing.
    pub closed spec fn wf(&self) -> bool {
        &&& self.accession_numbers.len() == self.forms.len()
        &&& self.filing_dates.len() == self.forms.len()
        &&& self.primary_documents.len() == self.forms.len()
    }

    /// The form types, by position.
    pub closed spec fn form_seq(&self) -> Seq<Seq<char>> {
        self.forms@.map_values(|f: String| f@)
    }

    /// The accession numbers, by position.
    pub closed spec fn accession_seq(&self) -> Seq<Seq<char>> {
        self.accession_numbers@.map_values(|f: String| f@)
    }

    /// The filing dates, by position.
    pub closed spec fn date_seq(&self) -> Seq<Seq<char>> {
        self.filing_dates@.map_values(|f: String| f@)
    }

    /// The primary document names, by position.
    pub closed spec fn document_seq(&self) -> Seq<Seq<char>> {
        self.primary_documents@.map_values(|f: String| f@)
    }

    /// Number of filings.
    pub closed spec fn spec_len(&self) -> nat {
        self.forms@.len()
    }

    /// Every column has one entry per filing.
    pub proof fn lemma_lengths(&self)
        requires
            self.wf(),
        ensures
            self.form_seq().len() == self.spec_len(),
            self.accession_seq().len() == self.spec_len(),
            self.date_seq().len() == self.spec_len(),
            self.document_seq().len() == self.spec_len(),
    {
    }

    /// Builds a history from its columns; `None` when their lengths differ.
    pub fn from_columns(
        forms: Vec<String>,
        accession_numbers: Vec<String>,
        filing_dates: Vec<String>,
        primary_documents: Vec<String>,
    ) -> (r: Option<FilingHistory>)
        ensures
            r is Some <==> (accession_numbers.len() == forms.len() && filing_dates.len()
                == forms.len() && primary_documents.len() == forms.len()),
            r is Some ==> {
                let h = r->0;
                &&& h.wf()
                &&& h.spec_len() == forms.len()
                &&& h.form_seq() == forms@.map_values(|f: String| f@)
                &&& h.accession_seq() == accession_numbers@.map_values(|f: String| f@)
                &&& h.date_seq() == filing_dates@.map_values(|f: String| f@)
                &&& h.document_seq() == primary_documents@.map_values(|f: String| f@)
            },
    {
        if accession_numbers.len() == forms.len() && filing_dates.len() == forms.len()
            && primary_documents.len() == forms.len() {
            Some(FilingHistory { forms, accession_numbers, filing_dates, primary_documents })
        } else {
            None
        }
    }

    /// Number of filings.
    pub fn len(&self) -> (r: usize)
        ensures
            r == self.spec_len(),
    {
        self.forms.len()
    }

    /// The form type of filing `i`.
    pub fn form(&self, i: usize) -> (r: &String)
        requires
            i < self.spec_len(),
        ensures
            r@ == self.form_seq()[i as int],
    {
        &self.forms[i]
    }

    /// The accession number of filing `i`.
    pub fn accession_number(&self, i: usize) -> (r: &String)
        requires
            self.wf(),
            i < self.spec_len(),
        ensures
            r@ == self.accession_seq()[i as int],
    {
        &self.accession_numbers[i]
    }

    /// The filing date of filing `i`.
    pub fn filing_date(&self, i: usize) -> (r: &String)
        requires
            self.wf(),
            i < self.spec_len(),
        ensures
            r@ == self.date_seq()[i as int],
    {
        &self.filing_dates[i]
    }

    /// The primary document of filing `i`.
    pub fn primary_document(&self, i: usize) -> (r: &String)
        requires
            self.wf(),
            i < self.spec_len(),
        ensures
            r@ == self.document_seq()[i as int],
    {
        &self.primary_documents[i]
    }
}

/// `picked` lists, in order of position, the first `count` positions of
/// `forms` that hold `label` (all of them when there are fewer).
pub open spec fn first_matches(forms: Seq<Seq<char>>, label: Seq<char>, count: nat, picked: Seq<usize>) -> bool {
    &&& picked.len() <= count
    &&& forall|k: int| 0 <= k < picked.len() ==> (#[trigger] picked[k]) < forms.len() && forms[picked[k] as int] == label
    &&& forall|k: int, l: int| 0 <= k < l < picked.len() ==> picked[k] < picked[l]
    &&& forall|j: int|
        0 <= j < forms.len() && forms[j] == label && (picked.len() < count || j < picked.last())
            ==> #[trigger] picked.contains(j as usize)
}

/// Positions of the history that hold `label`: the first `count` of them, most
/// recent first. Fails with `NoMatchingFilings` when there is none.
pub fn matching_filings(history: &FilingHistory, label: &String, count: usize) -> (r: Result<
    Vec<usize>,
    SelectionError,
>)
    requires
        count >= 1,
    ensures
        match r {
            Ok(picked) => picked.len() >= 1 && first_matches(
                history.form_seq(),
                label@,
                count as nat,
                picked@,
            ),
            Err(e) => e is NoMatchingFilings && e->NoMatchingFilings_0@ == label@ && forall|j: int|
                0 <= j < history.spec_len() ==> history.form_seq()[j] != label@,
        },
{
    let ghost forms = history.form_seq();
    let mut picked: Vec<usize> = Vec::new();
    let mut i: usize = 0;
    while i < history.forms.len() && picked.len() < count
        invariant
            forms == history.form_seq(),
            i <= history.forms.len(),
            picked.len() <= count,
            forall|k: int| 0 <= k < picked.len() ==> (#[trigger] picked@[k]) < i && forms[picked@[k] as int] == label@,
            forall|k: int, l: int| 0 <= k < l < picked.len() ==> picked@[k] < picked@[l],
            forall|j: int| 0 <= j < i && forms[j] == label@ ==> #[trigger] picked@.contains(j as usize),
        decreases history.forms.len() - i,
    {
        assert(forms[i as int] == history.forms@[i as int]@);
        if history.forms[i] == *label {
            let ghost before = picked@;
            picked.push(i);
            assert(picked@ == before.push(i));
            assert forall|j: int| 0 <= j < i + 1 && forms[j] == label@ implies #[trigger] picked@.contains(j as usize) by {
                if j < i {
                    assert(before.contains(j as usize));
                    let k = choose|k: int| 0 <= k < before.len() && before[k] == j as usize;
                    assert(picked@[k] == j as usize);
                } else {
                    assert(picked@[picked.len() - 1] == i);
                }
            }
        }
        i = i + 1;
    }
    if picked.len() == 0 {
        assert forall|j: int| 0 <= j < history.spec_len() implies history.form_seq()[j] != label@ by {
            if history.form_seq()[j] == label@ {
                assert(picked@.contains(j as usize));
            }
        }
        return Err(SelectionError::NoMatchingFilings(label.clone()));
    }
    assert forall|j: int|
        0 <= j < forms.len() && forms[j] == label@ && (picked.len() < count || j < picked@.last())
            implies #[trigger] picked@.contains(j as usize) by {
        if j >= i {
            assert(picked@.last() < i);
        }
    }
    Ok(picked)
}

/// `s` without its leading `0` characters.
pub open spec fn strip_leading_zeros(s: Seq<char>) -> Seq<char>
    decreases s.len(),
{
    if s.len() > 0 && s[0] == '0' {
        strip_leading_zeros(s.drop_first())
    } else {
        s
    }
}

/// `s` without its `-` characters.
pub open spec fn without_dashes(s: Seq<char>) -> Seq<char>
    decreases s.len(),
{
    if s.len() == 0 {
        s
    } else if s.last() == '-' {
        without_dashes(s.drop_last())
    } else {
        without_dashes(s.drop_last()).push(s.last())
    }
}

/// Where the archives of every company's filings lie.
pub open spec fn archive_root() -> Seq<char> {
    seq![
        'h', 't', 't', 'p', 's', ':', '/', '/', 'w', 'w', 'w', '.', 's', 'e', 'c', '.', 'g', 'o',
        'v', '/', 'A', 'r', 'c', 'h', 'i', 'v', 'e', 's', '/', 'e', 'd', 'g', 'a', 'r', '/', 'd',
        'a', 't', 'a', '/',
    ]
}

/// The archive location of one filing.
pub open spec fn archive_location(company_id: Seq<char>, accession: Seq<char>) -> Seq<char> {
    archive_root() + strip_leading_zeros(company_id) + seq!['/'] + without_dashes(accession)
}

fn push_all(out: &mut String, cs: &Vec<char>, from: usize)
    requires
        from <= cs.len(),
    ensures
        final(out)@ == old(out)@ + cs@.subrange(from as int, cs@.len() as int),
{
    let mut i = from;
    while i < cs.len()
        invariant
            from <= i <= cs.len(),
            out@ == old(out)@ + cs@.subrange(from as int, i as int),
        decreases cs.len() - i,
    {
        push_char(out, cs[i]);
        assert(cs@.subrange(from as int, i + 1) =~= cs@.subrange(from as int, i as int).push(cs@[i as int]));
        i = i + 1;
    }
}

/// The base location of a filing's archive: the company identifier without
/// leading zeros and the accession number without dashes.
pub fn archive_base(company_id: &str, accession: &str) -> (r: String)
    ensures
        r@ == archive_location(company_id@, accession@),
{
    let root = vec![
        'h', 't', 't', 'p', 's', ':', '/', '/', 'w', 'w', 'w', '.', 's', 'e', 'c', '.', 'g', 'o',
        'v', '/', 'A', 'r', 'c', 'h', 'i', 'v', 'e', 's', '/', 'e', 'd', 'g', 'a', 'r', '/', 'd',
        'a', 't', 'a', '/',
    ];
    assert(root@ =~= archive_root());
    let mut out = String::new();
    push_all(&mut out, &root, 0);
    let id = chars_of(company_id);
    let mut z: usize = 0;
    assert(id@.subrange(0, id@.len() as int) =~= id@);
    while z < id.len() && id[z] == '0'
        invariant
            z <= id.len(),
            strip_leading_zeros(id@) == strip_leading_zeros(id@.subrange(z as int, id@.len() as int)),
        decreases id.len() - z,
    {
        assert(id@.subrange(z as int, id@.len() as int).drop_first() =~= id@.subrange(z + 1, id@.len() as int));
        z = z + 1;
    }
    push_all(&mut out, &id, z);
    push_char(&mut out, '/');
    let acc = chars_of(accession);
    let ghost mid = out@;
    let mut i: usize = 0;
    while i < acc.len()
        invariant
            i <= acc.len(),
            out@ == mid + without_dashes(acc@.take(i as int)),
        decreases acc.len() - i,
    {
        assert(acc@.take(i + 1).drop_last() =~= acc@.take(i as int));
        if acc[i] != '-' {
            push_char(&mut out, acc[i]);
        }
        i = i + 1;
    }
    assert(acc@.take(acc@.len() as int) =~= acc@);
    assert(out@ =~= archive_location(company_id@, accession@));
    out
}

/// The endings that mark an XBRL instance document.
pub open spec fn is_instance_name(name: Seq<char>) -> bool {
    ends_with(name, seq!['_', 'h', 't', 'm', '.', 'x', 'm', 'l'])
        || ends_with(name, seq!['_', 'x', 'b', 'r', 'l', '.', 'x', 'm', 'l'])
}

fn ends_in(cs: &Vec<char>, w: &Vec<char>) -> (r: bool)
    ensures
        r == ends_with(cs@, w@),
{
    if w.len() > cs.len() {
        return false;
    }
    let at = cs.len() - w.len();
    let r = word_at(cs, at, w);
    assert(cs@.subrange(at as int, cs@.len() as int).subrange(0, w@.len() as int) =~= cs@.subrange(
        cs@.len() - w@.len(),
        cs@.len() as int,
    ));
    r
}

/// Whether a file name is that of an XBRL instance document.
pub fn instance_name(name: &String) -> (r: bool)
    ensures
        r == is_instance_name(name@),
{
    let cs = chars_of(name.as_str());
    let htm = vec!['_', 'h', 't', 'm', '.', 'x', 'm', 'l'];
    let xbrl = vec!['_', 'x', 'b', 'r', 'l', '.', 'x', 'm', 'l'];
    assert(htm@ =~= seq!['_', 'h', 't', 'm', '.', 'x', 'm', 'l']);
    assert(xbrl@ =~= seq!['_', 'x', 'b', 'r', 'l', '.', 'x', 'm', 'l']);
    ends_in(&cs, &htm) || ends_in(&cs, &xbrl)
}

/// The first file of a filing's listing that is an XBRL instance document.
pub fn find_instance_document(files: &Vec<String>) -> (r: Option<usize>)
    ensures
        match r {
            Some(i) => i < files.len() && is_instance_name(files@[i as int]@) && forall|j: int|
                0 <= j < i ==> !is_instance_name(#[trigger] files@[j]@),
            None => forall|j: int| 0 <= j < files.len() ==> !is_instance_name(#[trigger] files@[j]@),
        },
{
    let mut i: usize = 0;
    while i < files.len()
        invariant
            i <= files.len(),
            forall|j: int| 0 <= j < i ==> !is_instance_name(#[trigger] files@[j]@),
        decreases files.len() - i,
    {
        if instance_name(&files[i]) {
            return Some(i);
        }
        i = i + 1;
    }
    None
}

} // verus!
