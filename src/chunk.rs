use vstd::prelude::*;

use crate::budget::MESSAGE_BUDGET;
use crate::media::{copy_media_list, ParsedMedia};
use crate::thread::ThreadEntity;

verus! {

/// One outbound message of a thread: the texts of the entities
/// `first .. end`, joined by blank lines, and the attachments of the
/// entity that opened it.
pub struct OutputChunk {
    pub text: String,
    pub media_entities: Vec<ParsedMedia>,
    pub first: usize,
    pub end: usize,
}

/// The blank line that separates two texts of one chunk.
pub open spec fn separator() -> Seq<char> {
    seq!['\n', '\n']
}

/// The texts of the entities `first .. end` (`first < end`), joined by blank lines.
pub open spec fn joined(es: Seq<ThreadEntity>, first: int, end: int) -> Seq<char>
    decreases end - first,
{
    if end <= first + 1 {
        es[first].text@
    } else {
        joined(es, first, end - 1) + separator() + es[end - 1].text@
    }
}

/// The character budget of a chunk opened by entity `first`: a grouped
/// attachment sends its text as a message of its own, any other chunk gets
/// the budget the caller chose for the first chunk or for the later ones.
pub open spec fn chunk_budget(es: Seq<ThreadEntity>, first: int, first_budget: int, rest_budget: int) -> int {
    if es[first].media_entities@.len() > 1 {
        MESSAGE_BUDGET as int
    } else if first == 0 {
        first_budget
    } else {
        rest_budget
    }
}

/// Whether entity `j` has to open a new chunk after the chunk opened by `first`:
/// it carries attachments, or its text would take the chunk over `budget`.
pub open spec fn breaks_at(es: Seq<ThreadEntity>, first: int, j: int, budget: int) -> bool {
    es[j].media_entities@.len() > 0 || joined(es, first, j + 1).len() > budget
}

/// What one chunk of a chunking of `es` is.
pub open spec fn chunk_fits(es: Seq<ThreadEntity>, first_budget: int, rest_budget: int, c: OutputChunk) -> bool {
    let budget = chunk_budget(es, c.first as int, first_budget, rest_budget);
    &&& c.first < c.end <= es.len()
    &&& c.text@ == joined(es, c.first as int, c.end as int)
    &&& c.media_entities@ == es[c.first as int].media_entities@
    &&& forall|j: int| c.first < j < c.end ==> !#[trigger] breaks_at(es, c.first as int, j, budget)
    &&& c.end < es.len() ==> breaks_at(es, c.first as int, c.end as int, budget)
}

/// `cs` is the greedy chunking of `es`: consecutive ranges from the first
/// entity to the last, each one extended as long as the next entity neither
/// carries attachments nor overflows the chunk's budget.
pub open spec fn is_chunking(es: Seq<ThreadEntity>, first_budget: int, rest_budget: int, cs: Seq<OutputChunk>) -> bool {
    &&& (es.len() == 0 <==> cs.len() == 0)
    &&& cs.len() > 0 ==> cs[0].first == 0 && cs[cs.len() - 1].end == es.len()
    &&& forall|i: int| 0 <= i < cs.len() - 1 ==> #[trigger] cs[i].end == cs[i + 1].first
    &&& forall|i: int| 0 <= i < cs.len() ==> chunk_fits(es, first_budget, rest_budget, #[trigger] cs[i])
}

/// Whether `cur + 2 + next` exceeds `budget`, computed without overflow.
fn exceeds(cur: usize, next: usize, budget: usize) -> (r: bool)
    ensures
        r == (cur + 2 + next > budget),
{
    if cur > budget {
        true
    } else if next > budget - cur {
        true
    } else {
        budget - cur - next < 2
    }
}

fn budget_of(entities: &Vec<ThreadEntity>, first: usize, first_budget: usize, rest_budget: usize) -> (r: usize)
    requires
        first < entities.len(),
    ensures
        r == chunk_budget(entities@, first as int, first_budget as int, rest_budget as int),
{
    if entities[first].media_entities.len() > 1 {
        MESSAGE_BUDGET
    } else if first == 0 {
        first_budget
    } else {
        rest_budget
    }
}

/// Packs a thread into messages, in one greedy pass from the first entity
/// to the last. An entity with attachments always opens a new chunk, and so
/// does one whose text would take the open chunk over its budget; an
/// entity too long for any budget still goes whole into a chunk of its own.
pub fn chunk(entities: &Vec<ThreadEntity>, first_budget: usize, rest_budget: usize) -> (r: Vec<OutputChunk>)
    ensures
        is_chunking(entities@, first_budget as int, rest_budget as int, r@),
{
    let mut chunks: Vec<OutputChunk> = Vec::new();
    let n = entities.len();
    if n == 0 {
        return chunks;
    }
    let ghost es = entities@;
    let mut cur_first: usize = 0;
    let mut cur_text = entities[0].text.clone();
    let mut cur_len = entities[0].text.as_str().unicode_len();
    let mut budget = budget_of(entities, 0, first_budget, rest_budget);
    let mut i: usize = 1;
    proof {
        reveal_strlit("\n\n");
        assert("\n\n"@ =~= separator());
    }
    while i < n
        invariant
            n == entities.len(),
            es == entities@,
            "\n\n"@ == separator(),
            1 <= i <= n,
            cur_first < i,
            cur_text@ == joined(es, cur_first as int, i as int),
            cur_len == cur_text@.len(),
            budget == chunk_budget(es, cur_first as int, first_budget as int, rest_budget as int),
            forall|j: int| cur_first < j < i ==> !#[trigger] breaks_at(es, cur_first as int, j, budget as int),
            chunks.len() == 0 ==> cur_first == 0,
            chunks.len() > 0 ==> chunks[0].first == 0 && chunks[chunks.len() - 1].end == cur_first,
            forall|k: int| 0 <= k < chunks.len() - 1 ==> #[trigger] chunks[k].end == chunks[k + 1].first,
            forall|k: int| 0 <= k < chunks.len() ==> chunk_fits(es, first_budget as int, rest_budget as int, #[trigger] chunks[k]),
        decreases n - i,
    {
        let entity = &entities[i];
        let next_len = entity.text.as_str().unicode_len();
        let opens = entity.media_entities.len() > 0 || exceeds(cur_len, next_len, budget);
        proof {
            assert(joined(es, cur_first as int, i + 1) == cur_text@ + separator() + es[i as int].text@);
        }
        if opens {
            let done = OutputChunk {
                text: cur_text,
                media_entities: copy_media_list(&entities[cur_first].media_entities),
                first: cur_first,
                end: i,
            };
            chunks.push(done);
            cur_first = i;
            cur_text = entity.text.clone();
            cur_len = next_len;
            budget = budget_of(entities, i, first_budget, rest_budget);
        } else {
            cur_text.append("\n\n");
            cur_text.append(entity.text.as_str());
            cur_len = cur_len + 2 + next_len;
        }
        i = i + 1;
    }
    let last = OutputChunk {
        text: cur_text,
        media_entities: copy_media_list(&entities[cur_first].media_entities),
        first: cur_first,
        end: n,
    };
    chunks.push(last);
    chunks
}

/// The entities that the chunks `cs` were made of, chunk after chunk.
pub open spec fn sources(es: Seq<ThreadEntity>, cs: Seq<OutputChunk>) -> Seq<ThreadEntity>
    decreases cs.len(),
{
    if cs.len() == 0 {
        Seq::empty()
    } else {
        let c = cs[cs.len() - 1];
        sources(es, cs.drop_last()) + es.subrange(c.first as int, c.end as int)
    }
}

proof fn lemma_sources_prefix(es: Seq<ThreadEntity>, first_budget: int, rest_budget: int, cs: Seq<OutputChunk>, k: int)
    requires
        is_chunking(es, first_budget, rest_budget, cs),
        0 < k <= cs.len(),
    ensures
        sources(es, cs.subrange(0, k)) == es.subrange(0, cs[k - 1].end as int),
    decreases k,
{
    let pre = cs.subrange(0, k);
    assert(pre.drop_last() =~= cs.subrange(0, k - 1));
    assert(chunk_fits(es, first_budget, rest_budget, cs[k - 1]));
    if k == 1 {
        assert(sources(es, cs.subrange(0, 0)) =~= Seq::<ThreadEntity>::empty());
        assert(sources(es, pre) =~= es.subrange(0, cs[0].end as int));
    } else {
        lemma_sources_prefix(es, first_budget, rest_budget, cs, k - 1);
        assert(cs[k - 2].end == cs[k - 1].first);
        assert(chunk_fits(es, first_budget, rest_budget, cs[k - 2]));
        assert(sources(es, pre) =~= es.subrange(0, cs[k - 1].end as int));
    }
}

/// Chunking loses, repeats and reorders nothing: the chunks' entities,
/// chunk after chunk, are the thread itself.
pub proof fn lemma_chunking_covers_thread(es: Seq<ThreadEntity>, first_budget: int, rest_budget: int, cs: Seq<OutputChunk>)
    requires
        is_chunking(es, first_budget, rest_budget, cs),
    ensures
        sources(es, cs) == es,
{
    if cs.len() == 0 {
        assert(es =~= Seq::<ThreadEntity>::empty());
    } else {
        lemma_sources_prefix(es, first_budget, rest_budget, cs, cs.len() as int);
        assert(cs.subrange(0, cs.len() as int) =~= cs);
        assert(es.subrange(0, es.len() as int) =~= es);
    }
}

/// A chunk of more than one entity keeps within its budget; only a chunk
/// holding a single entity may be longer.
pub proof fn lemma_chunk_within_budget(es: Seq<ThreadEntity>, first_budget: int, rest_budget: int, cs: Seq<OutputChunk>, i: int)
    requires
        is_chunking(es, first_budget, rest_budget, cs),
        0 <= i < cs.len(),
        cs[i].end - cs[i].first > 1,
    ensures
        cs[i].text@.len() <= chunk_budget(es, cs[i].first as int, first_budget, rest_budget),
{
    let c = cs[i];
    assert(chunk_fits(es, first_budget, rest_budget, c));
    let budget = chunk_budget(es, c.first as int, first_budget, rest_budget);
    assert(!breaks_at(es, c.first as int, c.end - 1, budget));
}

proof fn lemma_chunk_of(es: Seq<ThreadEntity>, first_budget: int, rest_budget: int, cs: Seq<OutputChunk>, j: int, m: int) -> (i: int)
    requires
        is_chunking(es, first_budget, rest_budget, cs),
        0 <= m < cs.len(),
        cs[m].first <= j < es.len(),
    ensures
        0 <= i < cs.len(),
        cs[i].first <= j < cs[i].end,
    decreases cs.len() - m,
{
    if j < cs[m].end {
        m
    } else {
        assert(cs[m].end == cs[m + 1].first);
        lemma_chunk_of(es, first_budget, rest_budget, cs, j, m + 1)
    }
}

/// Every entity after the first that carries attachments opens a chunk.
pub proof fn lemma_media_opens_chunk(es: Seq<ThreadEntity>, first_budget: int, rest_budget: int, cs: Seq<OutputChunk>, j: int)
    requires
        is_chunking(es, first_budget, rest_budget, cs),
        0 < j < es.len(),
        es[j].media_entities@.len() > 0,
    ensures
        exists|i: int| 0 <= i < cs.len() && #[trigger] cs[i].first == j,
{
    let i = lemma_chunk_of(es, first_budget, rest_budget, cs, j, 0);
    let c = cs[i];
    assert(chunk_fits(es, first_budget, rest_budget, c));
    if c.first < j {
        assert(breaks_at(es, c.first as int, j, chunk_budget(es, c.first as int, first_budget, rest_budget)));
    }
    assert(cs[i].first == j);
}

/// A thread of one entity without attachments becomes one chunk holding
/// exactly that entity's text.
pub proof fn lemma_single_entity_single_chunk(es: Seq<ThreadEntity>, first_budget: int, rest_budget: int, cs: Seq<OutputChunk>)
    requires
        is_chunking(es, first_budget, rest_budget, cs),
        es.len() == 1,
        es[0].media_entities@.len() == 0,
    ensures
        cs.len() == 1,
        cs[0].text@ == es[0].text@,
        cs[0].media_entities@.len() == 0,
{
    assert(chunk_fits(es, first_budget, rest_budget, cs[0]));
    if cs.len() > 1 {
        assert(cs[0].end == cs[1].first);
        assert(chunk_fits(es, first_budget, rest_budget, cs[1]));
    }
}

} // verus!
