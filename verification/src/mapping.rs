use vstd::prelude::*;
use crate::fields::{CanonicalField, FIELD_COUNT};

verus! {

/// The mapping state with every canonical field unmapped (empty column name).
pub open spec fn all_unmapped() -> Seq<Seq<char>> {
    Seq::new(FIELD_COUNT as nat, |i: int| Seq::<char>::empty())
}

/// Effect of one `set` call on the mapping state.
pub open spec fn spec_set(
    m: Seq<Seq<char>>,
    field: CanonicalField,
    column: Seq<char>,
) -> Seq<Seq<char>> {
    m.update(field.spec_index(), column)
}

/// The mapping state after a sequence of `set` calls, applied in order.
pub open spec fn apply_sets(
    m: Seq<Seq<char>>,
    calls: Seq<(CanonicalField, Seq<char>)>,
) -> Seq<Seq<char>>
    decreases calls.len(),
{
    if calls.len() == 0 {
        m
    } else {
        apply_sets(spec_set(m, calls[0].0, calls[0].1), calls.drop_first())
    }
}

/// The column of the most recent `set` call for `field`, if any.
pub open spec fn last_set(
    calls: Seq<(CanonicalField, Seq<char>)>,
    field: CanonicalField,
) -> Option<Seq<char>>
    decreases calls.len(),
{
    if calls.len() == 0 {
        None
    } else if calls.last().0 == field {
        Some(calls.last().1)
    } else {
        last_set(calls.drop_last(), field)
    }
}

proof fn lemma_apply_sets_snoc(
    m: Seq<Seq<char>>,
    calls: Seq<(CanonicalField, Seq<char>)>,
    c: (CanonicalField, Seq<char>),
)
    ensures
        apply_sets(m, calls.push(c)) == spec_set(apply_sets(m, calls), c.0, c.1),
    decreases calls.len(),
{
    if calls.len() == 0 {
        assert(calls.push(c)[0] == c);
        assert(calls.push(c).drop_first() =~= Seq::<(CanonicalField, Seq<char>)>::empty());
        assert(apply_sets(m, calls.push(c)) == apply_sets(
            spec_set(m, c.0, c.1),
            calls.push(c).drop_first(),
        ));
        assert(apply_sets(spec_set(m, c.0, c.1), calls.push(c).drop_first()) == spec_set(
            m,
            c.0,
            c.1,
        ));
    } else {
        assert(calls.push(c)[0] == calls[0]);
        assert(calls.push(c).drop_first() =~= calls.drop_first().push(c));
        lemma_apply_sets_snoc(spec_set(m, calls[0].0, calls[0].1), calls.drop_first(), c);
        assert(apply_sets(m, calls.push(c)) == apply_sets(
            spec_set(m, calls[0].0, calls[0].1),
            calls.drop_first().push(c),
        ));
        assert(apply_sets(m, calls) == apply_sets(
            spec_set(m, calls[0].0, calls[0].1),
            calls.drop_first(),
        ));
    }
}

/// After any sequence of `set` calls, each canonical field holds the column
/// of its most recent `set`, and a field never set keeps its prior column.
pub proof fn lemma_sets_last_wins(
    m: Seq<Seq<char>>,
    calls: Seq<(CanonicalField, Seq<char>)>,
    field: CanonicalField,
)
    requires
        m.len() == FIELD_COUNT,
    ensures
        apply_sets(m, calls).len() == FIELD_COUNT,
        apply_sets(m, calls)[field.spec_index()] == match last_set(calls, field) {
            Some(col) => col,
            None => m[field.spec_index()],
        },
    decreases calls.len(),
{
    if calls.len() == 0 {
    } else {
        let c = calls.last();
        assert(calls =~= calls.drop_last().push(c));
        lemma_apply_sets_snoc(m, calls.drop_last(), c);
        lemma_sets_last_wins(m, calls.drop_last(), field);
    }
}

/// After any sequence of `set` calls on a fresh store, the state shows for
/// each field the column of its most recent `set`, and the empty (unmapped)
/// name for a field never set.
pub proof fn lemma_snapshot_reflects_latest_set(
    calls: Seq<(CanonicalField, Seq<char>)>,
    field: CanonicalField,
)
    ensures
        apply_sets(all_unmapped(), calls)[field.spec_index()] == match last_set(calls, field) {
            Some(col) => col,
            None => Seq::<char>::empty(),
        },
{
    lemma_sets_last_wins(all_unmapped(), calls, field);
}

/// A snapshot of the mapping from canonical fields to chosen source columns.
/// Position `i` holds the column for the field whose index is `i`; the empty
/// string means unmapped.
#[derive(Clone, PartialEq, Eq, Debug)]
pub struct ColumnMapping {
    columns: Vec<String>,
}

impl View for ColumnMapping {
    type V = Seq<Seq<char>>;

    closed spec fn view(&self) -> Seq<Seq<char>> {
        self.columns.deep_view()
    }
}

impl ColumnMapping {
    /// A mapping holds exactly one column per canonical field.
    pub open spec fn wf(self) -> bool {
        self@.len() == FIELD_COUNT
    }

    /// The column currently chosen for `field`; empty when unmapped.
    pub fn column_for(&self, field: CanonicalField) -> (c: &String)
        requires
            self.wf(),
        ensures
            c@ == self@[field.spec_index()],
    {
        &self.columns[field.index()]
    }
}

/// Holds the current mapping from each canonical field to its chosen source
/// column, mutated one entry at a time as the operator selects mappings.
/// Permissive by design: `set` does not check that the column is a member of
/// the current header set.
#[derive(Clone, PartialEq, Eq, Debug)]
pub struct MappingStore {
    columns: Vec<String>,
}

impl View for MappingStore {
    type V = Seq<Seq<char>>;

    closed spec fn view(&self) -> Seq<Seq<char>> {
        self.columns.deep_view()
    }
}

fn unmapped_columns() -> (columns: Vec<String>)
    ensures
        columns.deep_view() == all_unmapped(),
{
    let mut columns: Vec<String> = Vec::new();
    let mut i: usize = 0;
    while i < FIELD_COUNT
        invariant
            i <= FIELD_COUNT,
            columns@.len() == i,
            forall|k: int| 0 <= k < i ==> #[trigger] columns@[k]@ == Seq::<char>::empty(),
        decreases FIELD_COUNT - i,
    {
        columns.push(String::new());
        i = i + 1;
    }
    proof {
        assert(columns.deep_view() =~~= all_unmapped());
    }
    columns
}

fn clone_columns(v: &Vec<String>) -> (r: Vec<String>)
    ensures
        r.deep_view() == v.deep_view(),
{
    let mut r: Vec<String> = Vec::new();
    let mut i: usize = 0;
    let end = v.len();
    while i < end
        invariant
            i <= end,
            end == v@.len(),
            r@.len() == i,
            forall|k: int| 0 <= k < i ==> #[trigger] r@[k]@ == v@[k]@,
        decreases end - i,
    {
        r.push(v[i].clone());
        i = i + 1;
    }
    proof {
        assert(r.deep_view() =~~= v.deep_view());
    }
    r
}

impl MappingStore {
    /// A store holds exactly one column per canonical field.
    pub open spec fn wf(self) -> bool {
        self@.len() == FIELD_COUNT
    }

    /// A fresh store with every field unmapped.
    pub fn new() -> (s: Self)
        ensures
            s.wf(),
            s@ == all_unmapped(),
    {
        MappingStore { columns: unmapped_columns() }
    }

    /// Records the operator's choice for one field, overwriting any prior
    /// mapping for that field. Idempotent for equal arguments.
    pub fn set(&mut self, field: CanonicalField, column: String)
        requires
            old(self).wf(),
        ensures
            final(self).wf(),
            final(self)@ == spec_set(old(self)@, field, column@),
    {
        let i = field.index();
        self.columns.set(i, column);
        proof {
            assert(self@ =~~= spec_set(old(self)@, field, column@));
        }
    }

    /// Clears every mapping back to unmapped, regardless of prior state.
    pub fn reset(&mut self)
        ensures
            final(self).wf(),
            final(self)@ == all_unmapped(),
    {
        self.columns = unmapped_columns();
    }

    /// Returns the current state for the payload builder.
    pub fn snapshot(&self) -> (m: ColumnMapping)
        requires
            self.wf(),
        ensures
            m.wf(),
            m@ == self@,
    {
        ColumnMapping { columns: clone_columns(&self.columns) }
    }
}

} // verus!
