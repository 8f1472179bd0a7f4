//! Resolving a request into reports: a state machine whose fetches are done by
//! the caller, who hands back what each fetch returned.
use vstd::prelude::*;
use crate::extract::{ParseError, extract_facts, extraction, document_tokens};
use crate::normalize::{CanonicalReport, FieldRule, normalize, report_follows, schema_view};
use crate::sanitize::{sanitize_xml, sanitized};
use crate::select::{
    FilingHistory, SelectionError, archive_base, archive_location, find_instance_document,
    is_instance_name, matching_filings, first_matches,
};
use crate::text::{chars_of, push_char};

verus! {

/// One matched filing, with its instance document located.
#[derive(Debug)]
pub struct ResolvedFiling {
    pub accession_number: String,
    pub filing_date: String,
    pub base_url: String,
    pub instance_document: String,
}

/// The report of one filing.
#[derive(Debug)]
pub struct FilingReport {
    pub filing: ResolvedFiling,
    pub report: CanonicalReport,
}

/// Why a request, or a filing of it, failed.
#[derive(Debug)]
pub enum ResolveError {
    Selection(SelectionError),
    Parse(ParseError),
    /// A fetch failed; its message, unchanged.
    Transport(String),
}

/// What the caller does next.
#[derive(Debug)]
pub enum Action {
    /// List the files of the filing archive at this location.
    ListFiles(String),
    /// Fetch the document at this location.
    FetchDocument(String),
    /// All filings are done; take the reports.
    Finished,
    /// The request failed.
    Failed(ResolveError),
}

/// The location of a document inside a filing archive.
pub open spec fn document_location(base: Seq<char>, name: Seq<char>) -> Seq<char> {
    base + seq!['/'] + name
}

/// Builds the location of a document inside a filing archive.
pub fn document_url(base: &String, name: &String) -> (r: String)
    ensures
        r@ == document_location(base@, name@),
{
    let mut out = base.clone();
    push_char(&mut out, '/');
    let cs = chars_of(name.as_str());
    let mut i: usize = 0;
    while i < cs.len()
        invariant
            i <= cs.len(),
            out@ == base@ + seq!['/'] + cs@.take(i as int),
        decreases cs.len() - i,
    {
        push_char(&mut out, cs[i]);
        assert(cs@.take(i + 1) =~= cs@.take(i as int).push(cs@[i as int]));
        assert(out@ =~= base@ + seq!['/'] + cs@.take(i + 1));
        i = i + 1;
    }
    assert(cs@.take(cs@.len() as int) =~= cs@);
    out
}

/// The report of a raw document: sanitized, its facts extracted, normalized
/// with `schema`; or the tokenizer's error.
pub fn report_for_document(raw: &str, schema: &Vec<FieldRule>) -> (r: Result<
    CanonicalReport,
    ParseError,
>)
    ensures
        match extraction(document_tokens(sanitized(raw@))) {
            Ok(facts) => r is Ok && report_follows(r->Ok_0, facts, schema_view(schema@)),
            Err(m) => r is Err && r->Err_0.message@ == m,
        },
{
    let clean = sanitize_xml(raw);
    match extract_facts(clean.as_str()) {
        Ok(facts) => Ok(normalize(&facts, schema)),
        Err(e) => Err(e),
    }
}

/// `f` is filing `index` of the history, in the archive of `company_id`,
/// with the first instance document that `files` lists.
pub open spec fn located(
    f: ResolvedFiling,
    history: FilingHistory,
    index: int,
    company_id: Seq<char>,
    files: Seq<String>,
) -> bool {
    &&& f.accession_number@ == history.accession_seq()[index]
    &&& f.filing_date@ == history.date_seq()[index]
    &&& f.base_url@ == archive_location(company_id, history.accession_seq()[index])
    &&& is_instance_name(f.instance_document@)
    &&& exists|i: int|
        0 <= i < files.len() && files[i] == f.instance_document && forall|j: int|
            0 <= j < i ==> !is_instance_name(#[trigger] files[j]@)
}

/// Locates filing `index` of the history: its archive and the first instance
/// document of its file listing.
pub fn resolve_filing(
    history: &FilingHistory,
    index: usize,
    company_id: &str,
    files: &Vec<String>,
) -> (r: Result<ResolvedFiling, SelectionError>)
    requires
        history.wf(),
        index < history.spec_len(),
    ensures
        match r {
            Ok(f) => located(f, *history, index as int, company_id@, files@),
            Err(e) => e is NoInstanceDocument && forall|j: int|
                0 <= j < files.len() ==> !is_instance_name(#[trigger] files@[j]@),
        },
{
    match find_instance_document(files) {
        Some(i) => {
            let accession = history.accession_number(index);
            Ok(
                ResolvedFiling {
                    accession_number: accession.clone(),
                    filing_date: history.filing_date(index).clone(),
                    base_url: archive_base(company_id, accession.as_str()),
                    instance_document: files[i].clone(),
                },
            )
        },
        None => Err(SelectionError::NoInstanceDocument),
    }
}

/// A request in progress: the matched filings, the one being worked on, and
/// the reports so far.
pub struct Resolution {
    company_id: String,
    history: FilingHistory,
    targets: Vec<usize>,
    next: usize,
    current: Option<ResolvedFiling>,
    skip_failed: bool,
    reports: Vec<FilingReport>,
}

impl Resolution {
    pub closed spec fn wf(&self) -> bool {
        &&& self.history.wf()
        &&& self.next <= self.targets.len()
        &&& forall|k: int| 0 <= k < self.targets.len() ==> (#[trigger] self.targets@[k]) < self.history.spec_len()
        &&& self.current is Some ==> self.next < self.targets.len()
    }

    /// The matched positions of the history, in order.
    pub closed spec fn targets(&self) -> Seq<usize> {
        self.targets@
    }

    /// How many matched filings are done.
    pub closed spec fn done(&self) -> nat {
        self.next as nat
    }

    /// The filing whose document is awaited, if any.
    pub closed spec fn awaiting_document(&self) -> Option<ResolvedFiling> {
        self.current
    }

    /// A failed filing is skipped rather than failing the request.
    pub closed spec fn skips_failed(&self) -> bool {
        self.skip_failed
    }

    /// The reports so far.
    pub closed spec fn reports(&self) -> Seq<FilingReport> {
        self.reports@
    }

    pub closed spec fn company(&self) -> Seq<char> {
        self.company_id@
    }

    pub closed spec fn history(&self) -> FilingHistory {
        self.history
    }

    /// The archive location of matched filing `k`.
    pub open spec fn location_of(&self, k: int) -> Seq<char> {
        archive_location(self.company(), self.history().accession_seq()[self.targets()[k] as int])
    }

    /// What follows once the filings before `self.done()` are finished.
    pub open spec fn continues_with(&self, a: Action) -> bool {
        if self.done() < self.targets().len() {
            a is ListFiles && a->ListFiles_0@ == self.location_of(self.done() as int)
        } else {
            a is Finished
        }
    }

    /// Going on after a filing never fails the request: the next matched
    /// filing is listed, or the request finishes once every matched filing is
    /// done. In skipping mode every step goes on this way, so a filing without
    /// an instance document, with a document that does not parse, or whose
    /// fetch failed leaves a partial result rather than an error.
    pub proof fn lemma_going_on_never_fails(&self, a: Action)
        requires
            self.continues_with(a),
        ensures
            !(a is Failed),
            a is Finished <==> self.done() >= self.targets().len(),
    {
    }

    fn advance(&mut self) -> (a: Action)
        requires
            old(self).wf(),
            old(self).next < old(self).targets.len(),
        ensures
            final(self).wf(),
            final(self).next == old(self).next + 1,
            final(self).current is None,
            final(self).targets == old(self).targets,
            final(self).history == old(self).history,
            final(self).company_id == old(self).company_id,
            final(self).skip_failed == old(self).skip_failed,
            final(self).reports == old(self).reports,
            final(self).continues_with(a),
    {
        self.current = None;
        self.next = self.next + 1;
        self.resume()
    }

    fn resume(&self) -> (a: Action)
        requires
            self.wf(),
        ensures
            self.continues_with(a),
    {
        if self.next < self.targets.len() {
            let i = self.targets[self.next];
            Action::ListFiles(archive_base(self.company_id.as_str(), self.history.accession_number(i).as_str()))
        } else {
            Action::Finished
        }
    }

    /// Starts a request for the filings of `category` in `history`: the first
    /// `count` matching ones, most recent first. With `skip_failed`, a filing
    /// that fails is left out; without it, it fails the request.
    pub fn start(
        history: FilingHistory,
        company_id: &str,
        label: &String,
        count: usize,
        skip_failed: bool,
    ) -> (r: Result<(Resolution, Action), SelectionError>)
        requires
            history.wf(),
            count >= 1,
        ensures
            match r {
                Ok((s, a)) => {
                    &&& s.wf()
                    &&& s.history() == history
                    &&& s.company() == company_id@
                    &&& s.skips_failed() == skip_failed
                    &&& s.targets().len() >= 1
                    &&& first_matches(history.form_seq(), label@, count as nat, s.targets())
                    &&& s.done() == 0
                    &&& s.awaiting_document() is None
                    &&& s.reports().len() == 0
                    &&& s.continues_with(a)
                },
                Err(e) => e is NoMatchingFilings && e->NoMatchingFilings_0@ == label@ && forall|j: int|
                    0 <= j < history.spec_len() ==> history.form_seq()[j] != label@,
            },
    {
        proof {
            history.lemma_lengths();
        }
        match matching_filings(&history, label, count) {
            Ok(targets) => {
                assert(forall|k: int| 0 <= k < targets.len() ==> (#[trigger] targets@[k]) < history.spec_len());
                let s = Resolution {
                    company_id: company_id.to_owned(),
                    history,
                    targets,
                    next: 0,
                    current: None,
                    skip_failed,
                    reports: Vec::new(),
                };
                let a = s.resume();
                Ok((s, a))
            },
            Err(e) => Err(e),
        }
    }

    /// The file listing of the filing in progress came back.
    pub fn files_listed(&mut self, files: &Vec<String>) -> (a: Action)
        requires
            old(self).wf(),
            old(self).done() < old(self).targets().len(),
            old(self).awaiting_document() is None,
        ensures
            final(self).wf(),
            final(self).reports() == old(self).reports(),
            final(self).targets() == old(self).targets(),
            final(self).history() == old(self).history(),
            final(self).company() == old(self).company(),
            final(self).skips_failed() == old(self).skips_failed(),
            (exists|j: int| 0 <= j < files.len() && is_instance_name(#[trigger] files@[j]@)) ==> {
                let f = final(self).awaiting_document()->0;
                &&& final(self).awaiting_document() is Some
                &&& final(self).done() == old(self).done()
                &&& located(
                    f,
                    old(self).history(),
                    old(self).targets()[old(self).done() as int] as int,
                    old(self).company(),
                    files@,
                )
                &&& a is FetchDocument
                &&& a->FetchDocument_0@ == document_location(f.base_url@, f.instance_document@)
            },
            (forall|j: int| 0 <= j < files.len() ==> !is_instance_name(#[trigger] files@[j]@)) ==> {
                if old(self).skips_failed() {
                    &&& final(self).done() == old(self).done() + 1
                    &&& final(self).awaiting_document() is None
                    &&& final(self).continues_with(a)
                } else {
                    &&& final(self).done() == old(self).done()
                    &&& final(self).awaiting_document() is None
                    &&& a is Failed && a->Failed_0 is Selection
                    &&& a->Failed_0->Selection_0 is NoInstanceDocument
                }
            },
    {
        let i = self.targets[self.next];
        match resolve_filing(&self.history, i, self.company_id.as_str(), files) {
            Ok(f) => {
                let url = document_url(&f.base_url, &f.instance_document);
                self.current = Some(f);
                Action::FetchDocument(url)
            },
            Err(e) => {
                if self.skip_failed {
                    self.advance()
                } else {
                    Action::Failed(ResolveError::Selection(e))
                }
            },
        }
    }

    /// The instance document of the filing in progress came back.
    pub fn document_fetched(&mut self, raw: &str, schema: &Vec<FieldRule>) -> (a: Action)
        requires
            old(self).wf(),
            old(self).awaiting_document() is Some,
        ensures
            final(self).wf(),
            final(self).targets() == old(self).targets(),
            final(self).history() == old(self).history(),
            final(self).company() == old(self).company(),
            final(self).skips_failed() == old(self).skips_failed(),
            match extraction(document_tokens(sanitized(raw@))) {
                Ok(facts) => {
                    &&& final(self).reports().len() == old(self).reports().len() + 1
                    &&& final(self).reports().drop_last() == old(self).reports()
                    &&& final(self).reports().last().filing == old(self).awaiting_document()->0
                    &&& report_follows(final(self).reports().last().report, facts, schema_view(schema@))
                    &&& final(self).done() == old(self).done() + 1
                    &&& final(self).awaiting_document() is None
                    &&& final(self).continues_with(a)
                },
                Err(m) => if old(self).skips_failed() {
                    &&& final(self).reports() == old(self).reports()
                    &&& final(self).done() == old(self).done() + 1
                    &&& final(self).awaiting_document() is None
                    &&& final(self).continues_with(a)
                } else {
                    &&& final(self).reports() == old(self).reports()
                    &&& a is Failed && a->Failed_0 is Parse
                    &&& a->Failed_0->Parse_0.message@ == m
                },
            },
    {
        match report_for_document(raw, schema) {
            Ok(report) => {
                let filing = self.current.take().unwrap();
                let ghost before = self.reports@;
                self.reports.push(FilingReport { filing, report });
                assert(self.reports@.drop_last() =~= before);
                self.advance()
            },
            Err(e) => {
                if self.skip_failed {
                    self.advance()
                } else {
                    Action::Failed(ResolveError::Parse(e))
                }
            },
        }
    }

    /// A fetch for the filing in progress failed with `message`.
    pub fn fetch_failed(&mut self, message: String) -> (a: Action)
        requires
            old(self).wf(),
            old(self).done() < old(self).targets().len(),
        ensures
            final(self).wf(),
            final(self).reports() == old(self).reports(),
            final(self).targets() == old(self).targets(),
            final(self).history() == old(self).history(),
            final(self).company() == old(self).company(),
            final(self).skips_failed() == old(self).skips_failed(),
            old(self).skips_failed() ==> {
                &&& final(self).done() == old(self).done() + 1
                &&& final(self).awaiting_document() is None
                &&& final(self).continues_with(a)
            },
            !old(self).skips_failed() ==> a is Failed && a->Failed_0 is Transport
                && a->Failed_0->Transport_0 == message,
    {
        if self.skip_failed {
            self.advance()
        } else {
            Action::Failed(ResolveError::Transport(message))
        }
    }

    /// The filing whose instance document is awaited, if any.
    pub fn current_filing(&self) -> (r: Option<&ResolvedFiling>)
        ensures
            match r {
                Some(f) => self.awaiting_document() == Some(*f),
                None => self.awaiting_document() is None,
            },
    {
        match &self.current {
            Some(f) => Some(f),
            None => None,
        }
    }

    /// The reports of the finished filings, most recent first.
    pub fn into_reports(self) -> (r: Vec<FilingReport>)
        ensures
            r@ == self.reports(),
    {
        self.reports
    }
}

} // verus!
