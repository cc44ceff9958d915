//! The stratified sampler: a bounded sample of clean documents, and a sample
//! of noisy documents bounded by twice the clean documents that were found.

use crate::errors::MadError;
use crate::filter::{intersects, refused, FilterPolicy, FilterPolicyView, Metadata, MetadataView};
use crate::schemas::{
    doc_views, process_jsonline, stamped, Document, DocumentView, MadDocument, MadDocumentView,
};
use crate::tag::{clone_opt, LanguageTag, LanguageTagView};
use vstd::prelude::*;

verus! {

/// The two sampling categories of a directory.
#[derive(Debug, Clone, Copy, PartialEq, Eq, Structural)]
pub enum Stratum {
    Clean,
    Noisy,
}

/// What became of a record that was offered to the sampler.
#[derive(Debug, Clone, Copy, PartialEq, Eq, Structural)]
pub enum Offer {
    /// The record is in the sample.
    Accepted,
    /// The stratum had reached its cap before.
    StratumFull,
    /// The record has no text.
    EmptyText,
    /// The filter refused the record.
    Refused,
}

/// The number of clean documents that a directory may give.
pub const CLEAN_CAP: usize = 1000;

/// The accounting of one directory.
#[derive(Debug, Clone, Copy, PartialEq, Eq, Structural)]
pub struct SampleBudget {
    /// Most clean documents that are accepted.
    pub clean_cap: usize,
    /// Clean documents accepted so far.
    pub clean_count: usize,
    /// Noisy documents accepted so far.
    pub noisy_count: usize,
}

impl SampleBudget {
    /// Most noisy documents that are accepted: twice the clean documents that
    /// were accepted, not twice the clean cap.
    pub open spec fn noisy_cap(self) -> nat {
        2 * (self.clean_count as nat)
    }

    /// Neither count is above its cap.
    pub open spec fn wf(self) -> bool {
        self.clean_count <= self.clean_cap && self.noisy_count <= self.noisy_cap()
    }

    /// Whether the clean stratum has reached its cap.
    pub fn clean_full(&self) -> (full: bool)
        ensures
            full == (self.clean_count >= self.clean_cap),
    {
        self.clean_count >= self.clean_cap
    }

    /// Whether the noisy stratum has reached its cap.
    pub fn noisy_full(&self) -> (full: bool)
        ensures
            full == (self.noisy_count >= self.noisy_cap()),
    {
        self.noisy_count >= self.clean_count && self.noisy_count - self.clean_count
            >= self.clean_count
    }
}

/// A budget within its caps has no noisy document without a clean one.
pub proof fn lemma_budget_bounds(budget: SampleBudget)
    requires
        budget.wf(),
    ensures
        budget.noisy_count <= 2 * budget.clean_count,
        budget.clean_count <= budget.clean_cap,
        budget.clean_count == 0 ==> budget.noisy_count == 0,
{
}

/// One line of a source file: the record it decoded to, if it did, and the
/// metadata that came with it.
#[derive(Debug, Clone, PartialEq, Eq)]
pub struct SourceLine {
    pub record: Option<MadDocument>,
    pub meta: Metadata,
}

/// A line as plain values.
pub ghost struct SourceLineView {
    pub record: Option<MadDocumentView>,
    pub meta: MetadataView,
}

impl View for SourceLine {
    type V = SourceLineView;

    open spec fn view(&self) -> SourceLineView {
        SourceLineView {
            record: match self.record {
                Some(r) => Some(r@),
                None => None,
            },
            meta: self.meta@,
        }
    }
}

/// The views of a sequence of lines.
pub open spec fn line_views(lines: Seq<SourceLine>) -> Seq<SourceLineView> {
    lines.map_values(|l: SourceLine| l@)
}

/// A line can enter a sample: it decoded, it has text, and the filter lets it pass.
pub open spec fn eligible(policy: FilterPolicyView, line: SourceLineView) -> bool {
    line.record matches Some(record) && record.text.len() > 0 && !refused(policy, line.meta)
}

/// The rows of all eligible lines, in the order of the lines.
pub open spec fn accepted(
    tag: LanguageTagView,
    version: Seq<char>,
    policy: FilterPolicyView,
    clean: bool,
    lines: Seq<SourceLineView>,
) -> Seq<DocumentView>
    decreases lines.len(),
{
    if lines.len() == 0 {
        Seq::empty()
    } else {
        let before = accepted(tag, version, policy, clean, lines.drop_last());
        if eligible(policy, lines.last()) {
            before.push(stamped(lines.last().record->0, tag, clean, version))
        } else {
            before
        }
    }
}

/// The first `cap` items of `s`, or all of `s` where it has fewer.
pub open spec fn take_up_to<A>(s: Seq<A>, cap: nat) -> Seq<A> {
    if s.len() <= cap {
        s
    } else {
        s.take(cap as int)
    }
}

/// The clean sample of a directory: its first `clean_cap` eligible clean lines.
pub open spec fn clean_sample(
    tag: LanguageTagView,
    version: Seq<char>,
    policy: FilterPolicyView,
    clean_cap: nat,
    clean_lines: Seq<SourceLineView>,
) -> Seq<DocumentView> {
    take_up_to(accepted(tag, version, policy, true, clean_lines), clean_cap)
}

/// The noisy sample of a directory: its first eligible noisy lines, at most
/// twice as many as the clean sample holds.
pub open spec fn noisy_sample(
    tag: LanguageTagView,
    version: Seq<char>,
    policy: FilterPolicyView,
    clean_count: nat,
    noisy_lines: Seq<SourceLineView>,
) -> Seq<DocumentView> {
    take_up_to(accepted(tag, version, policy, false, noisy_lines), 2 * clean_count)
}

/// Number of lines that can enter a sample.
pub open spec fn eligible_count(policy: FilterPolicyView, lines: Seq<SourceLineView>) -> nat
    decreases lines.len(),
{
    if lines.len() == 0 {
        0
    } else {
        eligible_count(policy, lines.drop_last()) + if eligible(policy, lines.last()) {
            1nat
        } else {
            0nat
        }
    }
}

/// A line with a blocked category can enter no sample, and neither can a
/// line without text.
pub proof fn lemma_blocked_not_eligible(policy: FilterPolicyView, line: SourceLineView)
    ensures
        line.meta.categories matches Some(categories) && intersects(categories, policy.blocklist)
            ==> !eligible(policy, line),
        line.record matches Some(record) && record.text.len() == 0 ==> !eligible(policy, line),
        line.record is None ==> !eligible(policy, line),
{
}

/// The row is what some eligible line among `lines` gives.
pub open spec fn stems_from(
    row: DocumentView,
    tag: LanguageTagView,
    version: Seq<char>,
    policy: FilterPolicyView,
    clean: bool,
    lines: Seq<SourceLineView>,
) -> bool {
    exists|i: int|
        0 <= i < lines.len() && eligible(policy, #[trigger] lines[i]) && row == stamped(
            lines[i].record->0,
            tag,
            clean,
            version,
        )
}

/// Every row that the lines give stems from a line that decoded, has text
/// and carries no blocked category; so no row stems from a line with a
/// blocked category, whatever the blocklist holds. Every row has text.
pub proof fn lemma_rows_stem_from_eligible_lines(
    tag: LanguageTagView,
    version: Seq<char>,
    policy: FilterPolicyView,
    clean: bool,
    lines: Seq<SourceLineView>,
)
    ensures
        forall|k: int|
            0 <= k < accepted(tag, version, policy, clean, lines).len() ==> stems_from(
                #[trigger] accepted(tag, version, policy, clean, lines)[k],
                tag,
                version,
                policy,
                clean,
                lines,
            ),
        forall|k: int|
            0 <= k < accepted(tag, version, policy, clean, lines).len() ==> (#[trigger] accepted(
                tag,
                version,
                policy,
                clean,
                lines,
            )[k]).text.len() > 0,
    decreases lines.len(),
{
    if lines.len() > 0 {
        let shorter = lines.drop_last();
        lemma_rows_stem_from_eligible_lines(tag, version, policy, clean, shorter);
        let before = accepted(tag, version, policy, clean, shorter);
        let now = accepted(tag, version, policy, clean, lines);
        assert forall|k: int| 0 <= k < now.len() implies stems_from(
            #[trigger] now[k],
            tag,
            version,
            policy,
            clean,
            lines,
        ) && now[k].text.len() > 0 by {
            if k < before.len() {
                assert(stems_from(before[k], tag, version, policy, clean, shorter));
                let i = choose|i: int|
                    0 <= i < shorter.len() && eligible(policy, #[trigger] shorter[i]) && before[k]
                        == stamped(shorter[i].record->0, tag, clean, version);
                assert(shorter[i] == lines[i]);
            } else {
                assert(eligible(policy, lines[lines.len() - 1]));
            }
        }
    }
}

/// The lines give one row for each eligible line.
pub proof fn lemma_accepted_len(
    tag: LanguageTagView,
    version: Seq<char>,
    policy: FilterPolicyView,
    clean: bool,
    lines: Seq<SourceLineView>,
)
    ensures
        accepted(tag, version, policy, clean, lines).len() == eligible_count(policy, lines),
    decreases lines.len(),
{
    if lines.len() > 0 {
        lemma_accepted_len(tag, version, policy, clean, lines.drop_last());
    }
}

/// The sizes of the two samples of a directory: the clean sample holds as
/// many documents as there are eligible clean lines, but no more than the
/// cap; the noisy sample as many as there are eligible noisy lines, but no
/// more than twice the clean sample. Without a clean document there is no
/// noisy one.
pub proof fn lemma_sample_sizes(
    tag: LanguageTagView,
    version: Seq<char>,
    policy: FilterPolicyView,
    clean_cap: nat,
    clean_lines: Seq<SourceLineView>,
    noisy_lines: Seq<SourceLineView>,
)
    ensures
        ({
            let clean = clean_sample(tag, version, policy, clean_cap, clean_lines);
            let noisy = noisy_sample(tag, version, policy, clean.len(), noisy_lines);
            &&& clean.len() == if eligible_count(policy, clean_lines) <= clean_cap {
                eligible_count(policy, clean_lines)
            } else {
                clean_cap
            }
            &&& noisy.len() == if eligible_count(policy, noisy_lines) <= 2 * clean.len() {
                eligible_count(policy, noisy_lines)
            } else {
                2 * clean.len()
            }
            &&& clean.len() <= clean_cap
            &&& noisy.len() <= 2 * clean.len()
            &&& clean.len() == 0 ==> noisy.len() == 0
        }),
{
    lemma_accepted_len(tag, version, policy, true, clean_lines);
    lemma_accepted_len(tag, version, policy, false, noisy_lines);
}

/// The state of a sampler as plain values.
pub ghost struct SamplerView {
    pub tag: LanguageTagView,
    pub version: Seq<char>,
    pub policy: FilterPolicyView,
    pub clean_cap: nat,
    pub stratum: Stratum,
    pub clean: Seq<DocumentView>,
    pub noisy: Seq<DocumentView>,
}

impl SamplerView {
    /// The stratum that is being filled has reached its cap.
    pub open spec fn full(self) -> bool {
        match self.stratum {
            Stratum::Clean => self.clean.len() >= self.clean_cap,
            Stratum::Noisy => self.noisy.len() >= 2 * self.clean.len(),
        }
    }

    /// What becomes of a record that is offered in this state.
    pub open spec fn verdict(self, record: MadDocumentView, meta: MetadataView) -> Offer {
        if self.full() {
            Offer::StratumFull
        } else if record.text.len() == 0 {
            Offer::EmptyText
        } else if refused(self.policy, meta) {
            Offer::Refused
        } else {
            Offer::Accepted
        }
    }

    /// The state after a record was offered.
    pub open spec fn after(self, record: MadDocumentView, meta: MetadataView) -> SamplerView {
        if self.verdict(record, meta) == Offer::Accepted {
            match self.stratum {
                Stratum::Clean => SamplerView {
                    clean: self.clean.push(stamped(record, self.tag, true, self.version)),
                    ..self
                },
                Stratum::Noisy => SamplerView {
                    noisy: self.noisy.push(stamped(record, self.tag, false, self.version)),
                    ..self
                },
            }
        } else {
            self
        }
    }

    /// The state after a line was offered; a line that did not decode changes nothing.
    pub open spec fn after_line(self, line: SourceLineView) -> SamplerView {
        match line.record {
            Some(record) => self.after(record, line.meta),
            None => self,
        }
    }

    /// The state after the lines of a source were offered in order.
    pub open spec fn fed(self, lines: Seq<SourceLineView>) -> SamplerView
        decreases lines.len(),
    {
        if lines.len() == 0 {
            self
        } else {
            self.fed(lines.drop_last()).after_line(lines.last())
        }
    }
}

/// Once the stratum is full after some lines, the lines behind them change nothing.
pub proof fn lemma_fed_saturated(start: SamplerView, lines: Seq<SourceLineView>, i: int)
    requires
        0 <= i <= lines.len(),
        start.fed(lines.take(i)).full(),
    ensures
        start.fed(lines) == start.fed(lines.take(i)),
    decreases lines.len() - i,
{
    if i == lines.len() {
        assert(lines.take(i) == lines);
    } else {
        assert(lines.drop_last().take(i) == lines.take(i));
        lemma_fed_saturated(start, lines.drop_last(), i);
    }
}

/// Feeding an empty clean stratum leaves in it the first eligible lines, up to the cap.
pub proof fn lemma_fed_clean(start: SamplerView, lines: Seq<SourceLineView>)
    requires
        start.stratum == Stratum::Clean,
        start.clean.len() == 0,
    ensures
        start.fed(lines) == (SamplerView {
            clean: clean_sample(start.tag, start.version, start.policy, start.clean_cap, lines),
            ..start
        }),
    decreases lines.len(),
{
    if lines.len() == 0 {
        assert(start.clean =~= Seq::empty());
    } else {
        lemma_fed_clean(start, lines.drop_last());
        let before = accepted(start.tag, start.version, start.policy, true, lines.drop_last());
        let now = accepted(start.tag, start.version, start.policy, true, lines);
        assert(take_up_to(now, start.clean_cap) =~= if before.len() >= start.clean_cap {
            take_up_to(before, start.clean_cap)
        } else {
            now
        });
    }
}

/// Feeding an empty noisy stratum leaves in it the first eligible lines, up
/// to twice the number of clean documents.
pub proof fn lemma_fed_noisy(start: SamplerView, lines: Seq<SourceLineView>)
    requires
        start.stratum == Stratum::Noisy,
        start.noisy.len() == 0,
    ensures
        start.fed(lines) == (SamplerView {
            noisy: noisy_sample(start.tag, start.version, start.policy, start.clean.len(), lines),
            ..start
        }),
    decreases lines.len(),
{
    if lines.len() == 0 {
        assert(start.noisy =~= Seq::empty());
    } else {
        lemma_fed_noisy(start, lines.drop_last());
        let cap = 2 * start.clean.len();
        let before = accepted(start.tag, start.version, start.policy, false, lines.drop_last());
        let now = accepted(start.tag, start.version, start.policy, false, lines);
        assert(take_up_to(now, cap) =~= if before.len() >= cap {
            take_up_to(before, cap)
        } else {
            now
        });
    }
}

/// The sampler of one directory. It fills the clean stratum first; the noisy
/// stratum is opened once, and from then on the clean sample is final.
pub struct Sampler {
    tag: LanguageTag,
    version: String,
    policy: FilterPolicy,
    clean_cap: usize,
    stratum: Stratum,
    clean_len: usize,
    records: Vec<Document>,
}

impl View for Sampler {
    type V = SamplerView;

    closed spec fn view(&self) -> SamplerView {
        SamplerView {
            tag: self.tag@,
            version: self.version@,
            policy: self.policy@,
            clean_cap: self.clean_cap as nat,
            stratum: self.stratum,
            clean: doc_views(self.records@).take(self.clean_len as int),
            noisy: doc_views(self.records@).skip(self.clean_len as int),
        }
    }
}

impl Sampler {
    /// The invariant of a sampler: the counts are within their caps, no noisy
    /// document precedes the opening of the noisy stratum, every document has
    /// text, and each carries the mark of its stratum.
    pub closed spec fn wf(&self) -> bool {
        &&& self.clean_len <= self.records.len()
        &&& self.clean_len <= self.clean_cap
        &&& self.stratum == Stratum::Clean ==> self.clean_len == self.records.len()
        &&& self.records.len() - self.clean_len <= 2 * self.clean_len
        &&& forall|i: int| 0 <= i < self.records.len() ==> (#[trigger] self.records[i])@.text.len() > 0
        &&& forall|i: int|
            0 <= i < self.records.len() ==> (#[trigger] self.records[i]).clean == (i
                < self.clean_len)
    }

    /// A sampler with nothing in it, about to fill the clean stratum.
    pub fn new(tag: LanguageTag, version: String, clean_cap: usize, policy: FilterPolicy) -> (s:
        Sampler)
        ensures
            s.wf(),
            s@ == (SamplerView {
                tag: tag@,
                version: version@,
                policy: policy@,
                clean_cap: clean_cap as nat,
                stratum: Stratum::Clean,
                clean: Seq::empty(),
                noisy: Seq::empty(),
            }),
    {
        let s = Sampler {
            tag,
            version,
            policy,
            clean_cap,
            stratum: Stratum::Clean,
            clean_len: 0,
            records: Vec::new(),
        };
        assert(s@.clean =~= Seq::empty());
        assert(s@.noisy =~= Seq::empty());
        s
    }

    /// The stratum that is being filled.
    pub fn stratum(&self) -> (stratum: Stratum)
        ensures
            stratum == self@.stratum,
    {
        self.stratum
    }

    /// The accounting of the directory so far.
    pub fn budget(&self) -> (budget: SampleBudget)
        requires
            self.wf(),
        ensures
            budget.wf(),
            budget.clean_cap == self@.clean_cap,
            budget.clean_count == self@.clean.len(),
            budget.noisy_count == self@.noisy.len(),
    {
        SampleBudget {
            clean_cap: self.clean_cap,
            clean_count: self.clean_len,
            noisy_count: self.records.len() - self.clean_len,
        }
    }

    /// Whether the stratum that is being filled has reached its cap. No
    /// record is accepted into a full stratum.
    pub fn is_full(&self) -> (full: bool)
        requires
            self.wf(),
        ensures
            full == self@.full(),
    {
        let budget = self.budget();
        match self.stratum {
            Stratum::Clean => budget.clean_full(),
            Stratum::Noisy => budget.noisy_full(),
        }
    }

    /// Puts a row at the end of the stratum that is being filled, unless the
    /// stratum is full, the row has no text or the filter refuses it.
    fn place(&mut self, doc: Document, meta: &Metadata) -> (offer: Offer)
        requires
            old(self).wf(),
            doc@ == stamped(
                doc.record(),
                old(self)@.tag,
                old(self)@.stratum == Stratum::Clean,
                old(self)@.version,
            ),
        ensures
            final(self).wf(),
            offer == old(self)@.verdict(doc.record(), meta@),
            final(self)@ == old(self)@.after(doc.record(), meta@),
    {
        if self.is_full() {
            return Offer::StratumFull;
        }
        if doc.text.as_str().is_empty() {
            return Offer::EmptyText;
        }
        if self.policy.rejects(meta) {
            return Offer::Refused;
        }
        let ghost before = doc_views(self.records@);
        let ghost row = doc@;
        self.records.push(doc);
        proof {
            assert(doc_views(self.records@) =~= before.push(row));
        }
        match self.stratum {
            Stratum::Clean => {
                self.clean_len = self.records.len();
                proof {
                    assert(self@.clean =~= old(self)@.clean.push(row));
                    assert(self@.noisy =~= old(self)@.noisy);
                }
            },
            Stratum::Noisy => {
                proof {
                    assert(self@.clean =~= old(self)@.clean);
                    assert(self@.noisy =~= old(self)@.noisy.push(row));
                }
            },
        }
        Offer::Accepted
    }

    /// Offers a decoded record to the stratum that is being filled.
    ///
    /// The record is accepted, stamped with the tag, the stratum and the
    /// release, unless the stratum is full, the record has no text or the
    /// filter refuses it; then nothing changes. A record with a blocked
    /// category is never accepted.
    pub fn consider(&mut self, record: MadDocument, meta: &Metadata) -> (offer: Offer)
        requires
            old(self).wf(),
        ensures
            final(self).wf(),
            offer == old(self)@.verdict(record@, meta@),
            final(self)@ == old(self)@.after(record@, meta@),
            offer != Offer::Accepted ==> final(self)@ == old(self)@,
            record@.text.len() == 0 ==> offer != Offer::Accepted,
            meta@.categories matches Some(categories) && intersects(
                categories,
                old(self)@.policy.blocklist,
            ) ==> offer != Offer::Accepted,
    {
        let clean = match self.stratum {
            Stratum::Clean => true,
            Stratum::Noisy => false,
        };
        let doc = Document::stamp(record, &self.tag, clean, &self.version);
        self.place(doc, meta)
    }

    /// Offers the outcome of decoding one line. A line that did not decode is
    /// skipped: nothing changes and the decoder's error comes back.
    pub fn offer(&mut self, decoded: Result<MadDocument, serde_json::Error>, meta: &Metadata) -> (r:
        Result<Offer, MadError>)
        requires
            old(self).wf(),
        ensures
            final(self).wf(),
            match decoded {
                Ok(record) => r matches Ok(offer) && offer == old(self)@.verdict(record@, meta@)
                    && final(self)@ == old(self)@.after(record@, meta@),
                Err(e) => r matches Err(MadError::SerdeJson(cause)) && cause == e && final(self)@
                    == old(self)@,
            },
    {
        let clean = match self.stratum {
            Stratum::Clean => true,
            Stratum::Noisy => false,
        };
        let stamped = process_jsonline(
            decoded,
            self.tag.language.clone(),
            clone_opt(&self.tag.script),
            clone_opt(&self.tag.locale),
            clean,
            self.version.clone(),
        );
        match stamped {
            Ok(doc) => Ok(self.place(doc, meta)),
            Err(e) => Err(e),
        }
    }

    /// Closes the clean stratum and opens the noisy one. The cap of the noisy
    /// stratum is twice the number of clean documents held now.
    pub fn begin_noisy(&mut self)
        requires
            old(self).wf(),
        ensures
            final(self).wf(),
            final(self)@ == (SamplerView { stratum: Stratum::Noisy, ..old(self)@ }),
    {
        self.stratum = Stratum::Noisy;
    }

    /// Offers the lines of a source in order, and stops at the first line
    /// that finds the stratum full.
    pub fn feed(&mut self, lines: &Vec<SourceLine>)
        requires
            old(self).wf(),
        ensures
            final(self).wf(),
            final(self)@ == old(self)@.fed(line_views(lines@)),
    {
        let ghost all = line_views(lines@);
        let mut i: usize = 0;
        assert(all.take(0) =~= Seq::empty());
        while i < lines.len() && !self.is_full()
            invariant
                i <= lines.len(),
                self.wf(),
                all == line_views(lines@),
                self@ == old(self)@.fed(all.take(i as int)),
            decreases lines.len() - i,
        {
            let line = &lines[i];
            proof {
                assert(all.take(i + 1).drop_last() == all.take(i as int));
                assert(all.take(i + 1).last() == line@);
            }
            match &line.record {
                Some(record) => {
                    self.consider(record.duplicate(), &line.meta);
                },
                None => {},
            }
            i += 1;
        }
        proof {
            if i < lines.len() {
                lemma_fed_saturated(old(self)@, all, i as int);
            } else {
                assert(all.take(i as int) == all);
            }
        }
    }

    /// The counts of a sampler are within their caps in every state: the
    /// clean documents are no more than the clean cap, the noisy documents no
    /// more than twice the clean documents, and there is no noisy document
    /// without a clean one.
    pub proof fn lemma_counts_within_caps(self)
        requires
            self.wf(),
        ensures
            self@.clean.len() <= self@.clean_cap,
            self@.noisy.len() <= 2 * self@.clean.len(),
            self@.clean.len() == 0 ==> self@.noisy.len() == 0,
            self@.stratum == Stratum::Clean ==> self@.noisy.len() == 0,
    {
    }

    /// No document of a sampler has an empty text, in either stratum.
    pub proof fn lemma_every_document_has_text(self)
        requires
            self.wf(),
        ensures
            forall|i: int| 0 <= i < self@.clean.len() ==> (#[trigger] self@.clean[i]).text.len() > 0,
            forall|i: int| 0 <= i < self@.noisy.len() ==> (#[trigger] self@.noisy[i]).text.len() > 0,
    {
        assert forall|i: int| 0 <= i < self@.clean.len() implies (#[trigger] self@.clean[i]).text.len()
            > 0 by {
            assert(self@.clean[i] == self.records[i]@);
        }
        assert forall|i: int| 0 <= i < self@.noisy.len() implies (#[trigger] self@.noisy[i]).text.len()
            > 0 by {
            assert(self@.noisy[i] == self.records[i + self.clean_len]@);
        }
    }

    /// Every document carries the mark of its stratum: `clean` is true in the
    /// clean stratum and false in the noisy one.
    pub proof fn lemma_strata_marked(self)
        requires
            self.wf(),
        ensures
            forall|i: int| 0 <= i < self@.clean.len() ==> (#[trigger] self@.clean[i]).clean,
            forall|i: int| 0 <= i < self@.noisy.len() ==> !(#[trigger] self@.noisy[i]).clean,
    {
        assert forall|i: int| 0 <= i < self@.clean.len() implies (#[trigger] self@.clean[i]).clean by {
            assert(self@.clean[i] == self.records[i]@);
        }
        assert forall|i: int| 0 <= i < self@.noisy.len() implies !(#[trigger] self@.noisy[i]).clean by {
            assert(self@.noisy[i] == self.records[i + self.clean_len]@);
        }
    }

    /// The sample: the clean documents, then the noisy ones.
    pub fn finish(self) -> (records: Vec<Document>)
        requires
            self.wf(),
        ensures
            doc_views(records@) == self@.clean + self@.noisy,
            forall|i: int| 0 <= i < records.len() ==> (#[trigger] records[i])@.text.len() > 0,
            forall|i: int|
                0 <= i < records.len() ==> (#[trigger] records[i]).clean == (i
                    < self@.clean.len()),
    {
        proof {
            assert(doc_views(self.records@) =~= self@.clean + self@.noisy);
        }
        self.records
    }
}

/// Samples one directory whose lines are at hand: the clean lines fill the
/// clean stratum up to `clean_cap`, then the noisy lines fill the noisy
/// stratum up to twice the number of clean documents that were accepted.
pub fn sample_directory(
    tag: LanguageTag,
    version: String,
    clean_cap: usize,
    policy: FilterPolicy,
    clean_lines: &Vec<SourceLine>,
    noisy_lines: &Vec<SourceLine>,
) -> (records: Vec<Document>)
    ensures
        doc_views(records@) == clean_sample(
            tag@,
            version@,
            policy@,
            clean_cap as nat,
            line_views(clean_lines@),
        ) + noisy_sample(
            tag@,
            version@,
            policy@,
            clean_sample(tag@, version@, policy@, clean_cap as nat, line_views(clean_lines@)).len(),
            line_views(noisy_lines@),
        ),
        forall|i: int| 0 <= i < records.len() ==> (#[trigger] records[i])@.text.len() > 0,
{
    let mut sampler = Sampler::new(tag, version, clean_cap, policy);
    let ghost fresh = sampler@;
    sampler.feed(clean_lines);
    proof {
        lemma_fed_clean(fresh, line_views(clean_lines@));
    }
    sampler.begin_noisy();
    let ghost opened = sampler@;
    sampler.feed(noisy_lines);
    proof {
        assert(opened.noisy =~= Seq::empty());
        lemma_fed_noisy(opened, line_views(noisy_lines@));
    }
    sampler.finish()
}

} // verus!