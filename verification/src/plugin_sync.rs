//! Keeping the island in step with the plugin host's snapshots: which
//! contexts or widgets went away since the last snapshot, and which widgets
//! changed and must be handed to the widget manager again.
use crate::text::str_eq;
use vstd::prelude::*;

verus! {

/// The ids of the previous snapshot that the current one no longer has, in
/// the previous snapshot's order.
pub open spec fn stale_spec(known: Seq<u64>, current: Seq<u64>) -> Seq<u64>
    decreases known.len(),
{
    if known.len() == 0 {
        Seq::<u64>::empty()
    } else {
        let rest = stale_spec(known.drop_last(), current);
        if current.contains(known.last()) {
            rest
        } else {
            rest.push(known.last())
        }
    }
}

fn contains_id(ids: &Vec<u64>, id: u64) -> (found: bool)
    ensures
        found == ids@.contains(id),
{
    let mut i: usize = 0;
    while i < ids.len()
        invariant
            i <= ids.len(),
            forall|j: int| 0 <= j < i ==> ids@[j] != id,
        decreases ids.len() - i,
    {
        if ids[i] == id {
            assert(ids@[i as int] == id);
            return true;
        }
        i += 1;
    }
    false
}

/// The ids that were known but are missing from the current snapshot; their
/// contexts or widgets are to be removed.
pub fn stale_ids(known: &Vec<u64>, current: &Vec<u64>) -> (stale: Vec<u64>)
    ensures
        stale@ == stale_spec(known@, current@),
{
    let mut stale: Vec<u64> = Vec::new();
    let mut i: usize = 0;
    while i < known.len()
        invariant
            i <= known.len(),
            stale@ == stale_spec(known@.take(i as int), current@),
        decreases known.len() - i,
    {
        assert(known@.take(i + 1).drop_last() =~= known@.take(i as int));
        let id = known[i];
        if !contains_id(current, id) {
            stale.push(id);
        }
        i += 1;
    }
    assert(known@.take(known.len() as int) =~= known@);
    stale
}

proof fn lemma_push_contains(s: Seq<u64>, x: u64, y: u64)
    ensures
        s.push(x).contains(y) <==> (s.contains(y) || x == y),
{
    if s.contains(y) {
        let j = choose|j: int| 0 <= j < s.len() && s[j] == y;
        assert(s.push(x)[j] == y);
    }
    if x == y {
        assert(s.push(x)[s.len() as int] == y);
    }
    if s.push(x).contains(y) && x != y {
        let j = choose|j: int| 0 <= j < s.len() + 1 && s.push(x)[j] == y;
        assert(s[j] == y);
    }
}

/// An id is stale exactly when it was known and is not current.
pub proof fn lemma_stale_ids_exact(known: Seq<u64>, current: Seq<u64>, id: u64)
    ensures
        stale_spec(known, current).contains(id) <==> (known.contains(id) && !current.contains(id)),
    decreases known.len(),
{
    if known.len() > 0 {
        let prefix = known.drop_last();
        let last = known.last();
        lemma_stale_ids_exact(prefix, current, id);
        assert(known =~= prefix.push(last));
        lemma_push_contains(prefix, last, id);
        let rest = stale_spec(prefix, current);
        if !current.contains(last) {
            lemma_push_contains(rest, last, id);
        }
    }
}

/// What the island keeps of a plugin widget from the host's snapshot.
#[derive(Debug)]
pub struct WidgetSummary {
    pub id: u64,
    pub plugin_id: String,
    pub key: String,
    pub span_cols: u32,
    pub span_rows: u32,
    pub title: String,
    pub body: String,
}

/// Two summaries describe the same widget contents.
pub open spec fn same_widget(a: WidgetSummary, b: WidgetSummary) -> bool {
    &&& a.plugin_id@ == b.plugin_id@
    &&& a.key@ == b.key@
    &&& a.span_cols == b.span_cols
    &&& a.span_rows == b.span_rows
    &&& a.title@ == b.title@
    &&& a.body@ == b.body@
}

/// A widget from the snapshot is handed to the widget manager when it is new
/// or any of its owner, key, span, title or body changed.
pub fn widget_needs_update(previous: Option<&WidgetSummary>, widget: &WidgetSummary) -> (update: bool)
    ensures
        update == match previous {
            None => true,
            Some(old) => !same_widget(*old, *widget),
        },
{
    match previous {
        None => true,
        Some(old) => !(str_eq(old.plugin_id.as_str(), widget.plugin_id.as_str()) && str_eq(
            old.key.as_str(),
            widget.key.as_str(),
        ) && old.span_cols == widget.span_cols && old.span_rows == widget.span_rows && str_eq(
            old.title.as_str(),
            widget.title.as_str(),
        ) && str_eq(old.body.as_str(), widget.body.as_str())),
    }
}

/// The first known widget with the given id.
pub fn find_widget(widgets: &Vec<WidgetSummary>, id: u64) -> (found: Option<usize>)
    ensures
        match found {
            Some(i) => i < widgets.len() && widgets@[i as int].id == id && forall|j: int|
                0 <= j < i ==> widgets@[j].id != id,
            None => forall|j: int| 0 <= j < widgets.len() ==> widgets@[j].id != id,
        },
{
    let mut i: usize = 0;
    while i < widgets.len()
        invariant
            i <= widgets.len(),
            forall|j: int| 0 <= j < i ==> widgets@[j].id != id,
        decreases widgets.len() - i,
    {
        if widgets[i].id == id {
            return Some(i);
        }
        i += 1;
    }
    None
}

} // verus!
