//! Summaries: two aligned sequences of optional text blocks, their
//! concatenation, and the text that is rendered from them.

use vstd::prelude::*;
use vstd::string::*;

verus! {

/// Mathematical model of a summary: the text of each optional block.
pub struct SummaryView {
    pub parameters: Seq<Option<Seq<char>>>,
    pub state: Seq<Option<Seq<char>>>,
}

/// The characters of one optional block.
pub open spec fn block_text(block: Option<String>) -> Option<Seq<char>> {
    match block {
        Some(text) => Some(text@),
        None => None,
    }
}

/// The characters of each block of a sequence.
pub open spec fn blocks_text(blocks: Seq<Option<String>>) -> Seq<Option<Seq<char>>> {
    blocks.map_values(|b: Option<String>| block_text(b))
}

/// The characters of each line of a sequence.
pub open spec fn lines_text(lines: Seq<String>) -> Seq<Seq<char>> {
    lines.map_values(|l: String| l@)
}

/// What one optional block contributes to a rendering: itself when present,
/// nothing when absent.
pub open spec fn shown(block: Option<Seq<char>>) -> Seq<Seq<char>> {
    match block {
        Some(text) => seq![text],
        None => Seq::empty(),
    }
}

/// The present blocks of a sequence, in order.
pub open spec fn present(blocks: Seq<Option<Seq<char>>>) -> Seq<Seq<char>>
    decreases blocks.len(),
{
    if blocks.len() == 0 {
        Seq::empty()
    } else {
        present(blocks.drop_last()) + shown(blocks.last())
    }
}

/// The present blocks of two sequences of one length taken index by index: at
/// each index the block of `first`, then the block of `second`. Sequences of
/// different lengths have no pairing, and give nothing.
pub open spec fn interleaved(
    first: Seq<Option<Seq<char>>>,
    second: Seq<Option<Seq<char>>>,
) -> Seq<Seq<char>>
    decreases first.len(),
{
    if first.len() == 0 || first.len() != second.len() {
        Seq::empty()
    } else {
        interleaved(first.drop_last(), second.drop_last()) + shown(first.last()) + shown(
            second.last(),
        )
    }
}

/// The text made of the given lines, each ended by a line feed.
pub open spec fn joined(lines: Seq<Seq<char>>) -> Seq<char>
    decreases lines.len(),
{
    if lines.len() == 0 {
        Seq::empty()
    } else {
        joined(lines.drop_last()) + lines.last() + seq!['\n']
    }
}

impl SummaryView {
    /// The summary with no blocks at all.
    pub open spec fn identity() -> SummaryView {
        SummaryView { parameters: Seq::empty(), state: Seq::empty() }
    }

    /// Concatenation of two summaries, sequence by sequence.
    pub open spec fn combine(self, other: SummaryView) -> SummaryView {
        SummaryView {
            parameters: self.parameters + other.parameters,
            state: self.state + other.state,
        }
    }

    /// Both sequences have the same length.
    pub open spec fn aligned(self) -> bool {
        self.parameters.len() == self.state.len()
    }

    /// The error that a misaligned summary is reported with: the two lengths.
    pub open spec fn mismatch(self) -> SummaryLengthMismatch {
        SummaryLengthMismatch {
            parameters_len: self.parameters.len() as usize,
            state_len: self.state.len() as usize,
        }
    }

    /// What a rendering gives: the lines where the summary is aligned, and
    /// the mismatch, with no line at all, where it is not.
    pub open spec fn rendering(self, lines: Seq<Seq<char>>) -> Result<
        Seq<Seq<char>>,
        SummaryLengthMismatch,
    > {
        if self.aligned() {
            Ok(lines)
        } else {
            Err(self.mismatch())
        }
    }

    /// The lines of a rendering of the parameters alone.
    pub open spec fn parameter_lines(self) -> Seq<Seq<char>> {
        present(self.parameters)
    }

    /// The lines of a rendering of the state alone.
    pub open spec fn state_lines(self) -> Seq<Seq<char>> {
        present(self.state)
    }

    /// The lines of a full rendering: parameters and state paired by index.
    pub open spec fn summary_lines(self) -> Seq<Seq<char>> {
        interleaved(self.parameters, self.state)
    }
}

/// Textual description of an object: the parameters that defined it and the
/// data that make up its current state, block by block.
#[derive(Debug, Clone, PartialEq, Eq)]
pub struct Summary {
    /// Information about the parameters used to define the object.
    pub parameters: Vec<Option<String>>,
    /// Data that defines the current state of the object.
    pub state: Vec<Option<String>>,
}

/// The two sequences of a summary differ in length.
#[derive(Debug, Clone, Copy, PartialEq, Eq, Structural)]
pub struct SummaryLengthMismatch {
    pub parameters_len: usize,
    pub state_len: usize,
}

impl View for Summary {
    type V = SummaryView;

    open spec fn view(&self) -> SummaryView {
        SummaryView {
            parameters: blocks_text(self.parameters@),
            state: blocks_text(self.state@),
        }
    }
}

impl Summary {
    /// The empty summary.
    pub fn empty() -> (s: Summary)
        ensures
            s@ == SummaryView::identity(),
    {
        let s = Summary { parameters: Vec::new(), state: Vec::new() };
        assert(s@.parameters =~= Seq::empty());
        assert(s@.state =~= Seq::empty());
        s
    }

    /// Checks that the numbers of parameter and state blocks are the same.
    pub fn check_size(&self) -> (r: Result<(), SummaryLengthMismatch>)
        ensures
            self@.aligned() ==> r == Ok::<(), SummaryLengthMismatch>(()),
            !self@.aligned() ==> r == Err::<(), SummaryLengthMismatch>(self@.mismatch()),
    {
        if self.parameters.len() != self.state.len() {
            Err(
                SummaryLengthMismatch {
                    parameters_len: self.parameters.len(),
                    state_len: self.state.len(),
                },
            )
        } else {
            Ok(())
        }
    }

    /// The present parameter blocks, in order.
    pub fn parameter_lines(&self) -> (r: Result<Vec<String>, SummaryLengthMismatch>)
        ensures
            rendered_as(r, self@.rendering(self@.parameter_lines())),
    {
        match self.check_size() {
            Err(e) => Err(e),
            Ok(_) => Ok(present_blocks(&self.parameters)),
        }
    }

    /// The present state blocks, in order.
    pub fn state_lines(&self) -> (r: Result<Vec<String>, SummaryLengthMismatch>)
        ensures
            rendered_as(r, self@.rendering(self@.state_lines())),
    {
        match self.check_size() {
            Err(e) => Err(e),
            Ok(_) => Ok(present_blocks(&self.state)),
        }
    }

    /// Parameters and state interleaved: at each index the parameter block,
    /// then the state block, each only where present.
    pub fn summary_lines(&self) -> (r: Result<Vec<String>, SummaryLengthMismatch>)
        ensures
            rendered_as(r, self@.rendering(self@.summary_lines())),
    {
        match self.check_size() {
            Err(e) => Err(e),
            Ok(_) => Ok(paired_blocks(&self.parameters, &self.state)),
        }
    }

    /// The text of a rendering of the parameters alone, one block per line.
    pub fn parameters_text(&self) -> (r: Result<String, SummaryLengthMismatch>)
        ensures
            written_as(r, self@.rendering(self@.parameter_lines())),
    {
        match self.parameter_lines() {
            Err(e) => Err(e),
            Ok(lines) => Ok(join_lines(&lines)),
        }
    }

    /// The text of a rendering of the state alone, one block per line.
    pub fn state_text(&self) -> (r: Result<String, SummaryLengthMismatch>)
        ensures
            written_as(r, self@.rendering(self@.state_lines())),
    {
        match self.state_lines() {
            Err(e) => Err(e),
            Ok(lines) => Ok(join_lines(&lines)),
        }
    }

    /// The text of a full rendering, one block per line.
    pub fn summary_text(&self) -> (r: Result<String, SummaryLengthMismatch>)
        ensures
            written_as(r, self@.rendering(self@.summary_lines())),
    {
        match self.summary_lines() {
            Err(e) => Err(e),
            Ok(lines) => Ok(join_lines(&lines)),
        }
    }

    /// Appends the blocks of `other` to this summary, sequence by sequence.
    pub fn append(&mut self, other: Summary)
        ensures
            final(self)@ == old(self)@.combine(other@),
    {
        let mut other = other;
        let ghost before = self@;
        let ghost added = other@;
        self.parameters.append(&mut other.parameters);
        self.state.append(&mut other.state);
        assert(self@.parameters =~= before.parameters + added.parameters);
        assert(self@.state =~= before.state + added.state);
    }
}

/// An executable rendering agrees with its model: the same error, or lines of
/// the same text.
pub open spec fn rendered_as(
    r: Result<Vec<String>, SummaryLengthMismatch>,
    model: Result<Seq<Seq<char>>, SummaryLengthMismatch>,
) -> bool {
    match (r, model) {
        (Ok(lines), Ok(texts)) => lines_text(lines@) == texts,
        (Err(e), Err(m)) => e == m,
        _ => false,
    }
}

/// A text agrees with the model of a rendering: the same error, or the lines
/// of the model, each ended by a line feed.
pub open spec fn written_as(
    r: Result<String, SummaryLengthMismatch>,
    model: Result<Seq<Seq<char>>, SummaryLengthMismatch>,
) -> bool {
    match (r, model) {
        (Ok(text), Ok(lines)) => text@ == joined(lines),
        (Err(e), Err(m)) => e == m,
        _ => false,
    }
}

impl std::ops::Add<Summary> for Summary {
    type Output = Summary;

    /// Concatenation of two summaries.
    fn add(self, other: Summary) -> (sum: Summary)
        ensures
            sum@ == self@.combine(other@),
    {
        let mut sum = self;
        sum.append(other);
        sum
    }
}

/// `+` on summaries is specified by the contract of `add`, over views: two
/// summaries of equal text need not be the same value, so no equation between
/// values is claimed.
impl vstd::std_specs::ops::AddSpecImpl<Summary> for Summary {
    open spec fn obeys_add_spec() -> bool {
        false
    }

    open spec fn add_req(self, other: Summary) -> bool {
        true
    }

    open spec fn add_spec(self, other: Summary) -> Summary {
        self
    }
}

impl std::ops::AddAssign<Summary> for Summary {
    /// Concatenation in place.
    fn add_assign(&mut self, other: Summary)
        ensures
            final(self)@ == old(self)@.combine(other@),
    {
        self.append(other);
    }
}

/// Objects that can describe themselves by a summary.
pub trait Summarize {
    /// The summary that the object's current data have.
    spec fn summary_of(&self) -> SummaryView;

    /// Generates the summary of the object from its current data.
    fn get_summary(&self) -> (s: Summary)
        ensures
            s@ == self.summary_of(),
    ;

    /// The text of the object's parameters, one block per line.
    fn parameters_text(&self) -> (r: Result<String, SummaryLengthMismatch>)
        ensures
            written_as(r, self.summary_of().rendering(self.summary_of().parameter_lines())),
    {
        self.get_summary().parameters_text()
    }

    /// The text of the object's state, one block per line.
    fn state_text(&self) -> (r: Result<String, SummaryLengthMismatch>)
        ensures
            written_as(r, self.summary_of().rendering(self.summary_of().state_lines())),
    {
        self.get_summary().state_text()
    }

    /// The text of the object's full summary, one block per line: at each
    /// index the parameter block, then the state block.
    fn summary_text(&self) -> (r: Result<String, SummaryLengthMismatch>)
        ensures
            written_as(r, self.summary_of().rendering(self.summary_of().summary_lines())),
    {
        self.get_summary().summary_text()
    }
}

/// Copies of the present blocks of a sequence, in order.
fn present_blocks(blocks: &Vec<Option<String>>) -> (lines: Vec<String>)
    ensures
        lines_text(lines@) == present(blocks_text(blocks@)),
{
    let ghost all = blocks_text(blocks@);
    let mut lines: Vec<String> = Vec::new();
    assert(lines_text(lines@) =~= present(all.take(0)));
    for i in 0..blocks.len()
        invariant
            all == blocks_text(blocks@),
            lines_text(lines@) == present(all.take(i as int)),
    {
        let ghost before = lines_text(lines@);
        assert(all.take(i + 1).drop_last() =~= all.take(i as int));
        assert(all.take(i + 1).last() == block_text(blocks@[i as int]));
        match &blocks[i] {
            Some(text) => {
                lines.push(text.clone());
                assert(lines_text(lines@) =~= before + seq![text@]);
            },
            None => {
                assert(before + Seq::<Seq<char>>::empty() =~= before);
            },
        }
    }
    assert(all.take(blocks.len() as int) =~= all);
    lines
}

/// Copies of the present blocks of two sequences of one length, paired index
/// by index.
fn paired_blocks(first: &Vec<Option<String>>, second: &Vec<Option<String>>) -> (lines: Vec<
    String,
>)
    requires
        first.len() == second.len(),
    ensures
        lines_text(lines@) == interleaved(blocks_text(first@), blocks_text(second@)),
{
    let ghost a = blocks_text(first@);
    let ghost b = blocks_text(second@);
    let n: usize = first.len();
    let mut lines: Vec<String> = Vec::new();
    assert(lines_text(lines@) =~= interleaved(a.take(0), b.take(0)));
    for i in 0..n
        invariant
            a == blocks_text(first@),
            b == blocks_text(second@),
            n == first.len(),
            n == second.len(),
            lines_text(lines@) == interleaved(a.take(i as int), b.take(i as int)),
    {
        assert(a.take(i + 1).drop_last() =~= a.take(i as int));
        assert(b.take(i + 1).drop_last() =~= b.take(i as int));
        assert(a.take(i + 1).last() == block_text(first@[i as int]));
        assert(b.take(i + 1).last() == block_text(second@[i as int]));
        let ghost before = lines_text(lines@);
        match &first[i] {
            Some(text) => {
                lines.push(text.clone());
                assert(lines_text(lines@) =~= before + shown(a[i as int]));
            },
            None => {
                assert(before + shown(a[i as int]) =~= before);
            },
        }
        let ghost middle = lines_text(lines@);
        match &second[i] {
            Some(text) => {
                lines.push(text.clone());
                assert(lines_text(lines@) =~= middle + shown(b[i as int]));
            },
            None => {
                assert(middle + shown(b[i as int]) =~= middle);
            },
        }
    }
    assert(a.take(n as int) =~= a);
    assert(b.take(n as int) =~= b);
    lines
}

/// The text made of the given lines, each followed by a line feed.
pub fn join_lines(lines: &Vec<String>) -> (text: String)
    ensures
        text@ == joined(lines_text(lines@)),
{
    let ghost all = lines_text(lines@);
    let mut text = String::new();
    assert(text@ =~= joined(all.take(0)));
    for i in 0..lines.len()
        invariant
            all == lines_text(lines@),
            text@ == joined(all.take(i as int)),
    {
        assert(all.take(i + 1).drop_last() =~= all.take(i as int));
        assert(all.take(i + 1).last() == lines@[i as int]@);
        text.append(lines[i].as_str());
        text.append("\n");
        proof {
            reveal_strlit("\n");
            assert("\n"@ =~= seq!['\n']);
        }
    }
    assert(all.take(lines.len() as int) =~= all);
    text
}

/// The empty summary is a two-sided identity of `combine`.
pub proof fn lemma_combine_identity(a: SummaryView)
    ensures
        a.combine(SummaryView::identity()) == a,
        SummaryView::identity().combine(a) == a,
{
    assert(a.parameters + Seq::<Option<Seq<char>>>::empty() =~= a.parameters);
    assert(a.state + Seq::<Option<Seq<char>>>::empty() =~= a.state);
    assert(Seq::<Option<Seq<char>>>::empty() + a.parameters =~= a.parameters);
    assert(Seq::<Option<Seq<char>>>::empty() + a.state =~= a.state);
}

/// `combine` is associative.
pub proof fn lemma_combine_associative(a: SummaryView, b: SummaryView, c: SummaryView)
    ensures
        a.combine(b).combine(c) == a.combine(b.combine(c)),
{
    assert((a.parameters + b.parameters) + c.parameters =~= a.parameters + (b.parameters
        + c.parameters));
    assert((a.state + b.state) + c.state =~= a.state + (b.state + c.state));
}

/// Each sequence of a combination is as long as the two it was made of
/// together, so a combination of aligned summaries is aligned.
pub proof fn lemma_combine_lengths(a: SummaryView, b: SummaryView)
    ensures
        a.combine(b).parameters.len() == a.parameters.len() + b.parameters.len(),
        a.combine(b).state.len() == a.state.len() + b.state.len(),
        a.aligned() && b.aligned() ==> a.combine(b).aligned(),
{
}

/// The present blocks of a concatenation are those of its parts, in order.
pub proof fn lemma_present_concat(a: Seq<Option<Seq<char>>>, b: Seq<Option<Seq<char>>>)
    ensures
        present(a + b) == present(a) + present(b),
    decreases b.len(),
{
    if b.len() == 0 {
        assert(a + b =~= a);
        assert(present(a) + present(b) =~= present(a));
    } else {
        lemma_present_concat(a, b.drop_last());
        assert((a + b).drop_last() =~= a + b.drop_last());
        assert((a + b).last() == b.last());
        assert(present(a + b) =~= present(a) + present(b));
    }
}

/// The pairing of two concatenations is the pairing of the first parts, then
/// that of the second parts, where the parts of each pair have one length.
pub proof fn lemma_interleaved_concat(
    a: Seq<Option<Seq<char>>>,
    b: Seq<Option<Seq<char>>>,
    c: Seq<Option<Seq<char>>>,
    d: Seq<Option<Seq<char>>>,
)
    requires
        a.len() == b.len(),
        c.len() == d.len(),
    ensures
        interleaved(a + c, b + d) == interleaved(a, b) + interleaved(c, d),
    decreases c.len(),
{
    if c.len() == 0 {
        assert(a + c =~= a);
        assert(b + d =~= b);
        assert(interleaved(a, b) + interleaved(c, d) =~= interleaved(a, b));
    } else {
        lemma_interleaved_concat(a, b, c.drop_last(), d.drop_last());
        assert((a + c).drop_last() =~= a + c.drop_last());
        assert((b + d).drop_last() =~= b + d.drop_last());
        assert((a + c).last() == c.last());
        assert((b + d).last() == d.last());
        assert(interleaved(a + c, b + d) =~= interleaved(a, b) + interleaved(c, d));
    }
}

/// The text of a concatenation of lines is the texts of its parts, one after
/// the other.
pub proof fn lemma_joined_concat(a: Seq<Seq<char>>, b: Seq<Seq<char>>)
    ensures
        joined(a + b) == joined(a) + joined(b),
    decreases b.len(),
{
    if b.len() == 0 {
        assert(a + b =~= a);
        assert(joined(a) + joined(b) =~= joined(a));
    } else {
        lemma_joined_concat(a, b.drop_last());
        assert((a + b).drop_last() =~= a + b.drop_last());
        assert((a + b).last() == b.last());
        assert(joined(a + b) =~= joined(a) + joined(b));
    }
}

/// A combination of aligned summaries renders as its first part followed by
/// its second part, in each of the three renderings.
pub proof fn lemma_combine_renders_in_order(a: SummaryView, b: SummaryView)
    requires
        a.aligned(),
        b.aligned(),
    ensures
        a.combine(b).parameter_lines() == a.parameter_lines() + b.parameter_lines(),
        a.combine(b).state_lines() == a.state_lines() + b.state_lines(),
        a.combine(b).summary_lines() == a.summary_lines() + b.summary_lines(),
        joined(a.combine(b).parameter_lines()) == joined(a.parameter_lines()) + joined(
            b.parameter_lines(),
        ),
        joined(a.combine(b).state_lines()) == joined(a.state_lines()) + joined(b.state_lines()),
        joined(a.combine(b).summary_lines()) == joined(a.summary_lines()) + joined(
            b.summary_lines(),
        ),
{
    lemma_present_concat(a.parameters, b.parameters);
    lemma_present_concat(a.state, b.state);
    lemma_interleaved_concat(a.parameters, a.state, b.parameters, b.state);
    lemma_joined_concat(a.parameter_lines(), b.parameter_lines());
    lemma_joined_concat(a.state_lines(), b.state_lines());
    lemma_joined_concat(a.summary_lines(), b.summary_lines());
}

} // verus!
