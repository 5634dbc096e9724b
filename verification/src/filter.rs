//! Predicates that decide which records reach the logger, and the two
//! combinators that build larger predicates out of smaller ones.

use crate::record::Record;
use crate::record::RecordKind;
use crate::record::RecordView;
use itertools::Itertools;
use vstd::prelude::*;

verus! {

/// A predicate over records. The answer depends on the filter and on what
/// the record holds, and on nothing else.
pub trait RecordFilter: Send + 'static {
    /// Whether the filter lets the record through. An implementation says
    /// when it does.
    open spec fn accepts(&self, record: RecordView) -> bool {
        arbitrary()
    }

    fn check(&self, record: &Record) -> (accepted: bool)
        ensures
            accepted == self.accepts(record@),
    ;
}

impl RecordFilter for Box<dyn RecordFilter> {
    open spec fn accepts(&self, record: RecordView) -> bool {
        (**self).accepts(record)
    }

    fn check(&self, record: &Record) -> (accepted: bool) {
        (**self).check(record)
    }
}

/// The filter that lets every record through.
#[derive(Debug, Clone, Copy, Default)]
pub struct DefaultFilter;

impl RecordFilter for DefaultFilter {
    open spec fn accepts(&self, record: RecordView) -> bool {
        true
    }

    fn check(&self, _record: &Record) -> (accepted: bool) {
        true
    }
}

impl RecordFilter for Box<DefaultFilter> {
    open spec fn accepts(&self, record: RecordView) -> bool {
        (**self).accepts(record)
    }

    fn check(&self, record: &Record) -> (accepted: bool) {
        (**self).check(record)
    }
}

/// The items of `items` in order, each kept where it occurs first.
pub open spec fn first_occurrences(items: Seq<RecordKind>) -> Seq<RecordKind>
    decreases items.len(),
{
    if items.len() == 0 {
        Seq::empty()
    } else {
        let before = first_occurrences(items.drop_last());
        if before.contains(items.last()) {
            before
        } else {
            before.push(items.last())
        }
    }
}

/// Keeping first occurrences loses no item, adds none, and leaves none twice.
pub proof fn lemma_first_occurrences(items: Seq<RecordKind>)
    ensures
        first_occurrences(items).no_duplicates(),
        forall|kind: RecordKind|
            first_occurrences(items).contains(kind) <==> items.contains(kind),
    decreases items.len(),
{
    if items.len() > 0 {
        let shorter = items.drop_last();
        let before = first_occurrences(shorter);
        let kept = first_occurrences(items);
        lemma_first_occurrences(shorter);
        assert forall|kind: RecordKind| kept.contains(kind) <==> items.contains(kind) by {
            if items.contains(kind) {
                let i = choose|i: int| 0 <= i < items.len() && items[i] == kind;
                if i < shorter.len() {
                    assert(shorter[i] == kind);
                    assert(shorter.contains(kind));
                    let j = choose|j: int| 0 <= j < before.len() && before[j] == kind;
                    assert(kept[j] == kind);
                } else {
                    if !before.contains(kind) {
                        assert(kept[before.len() as int] == kind);
                    } else {
                        let j = choose|j: int| 0 <= j < before.len() && before[j] == kind;
                        assert(kept[j] == kind);
                    }
                }
            }
            if kept.contains(kind) {
                let j = choose|j: int| 0 <= j < kept.len() && kept[j] == kind;
                if j < before.len() {
                    assert(before[j] == kind);
                    assert(before.contains(kind));
                    assert(shorter.contains(kind));
                    let i = choose|i: int| 0 <= i < shorter.len() && shorter[i] == kind;
                    assert(items[i] == kind);
                } else {
                    assert(items[items.len() - 1] == kind);
                }
            }
        }
    }
}

/// `Itertools::unique` over the copied items of a slice, collected: the
/// adaptor yields the items in the order of the slice and drops each one that
/// equals an item it has yielded before, so the first of equal items stays.
#[verifier::external_body]
fn unique_kinds(kinds: &[RecordKind]) -> (kept: Vec<RecordKind>)
    ensures
        kept@ == first_occurrences(kinds@),
{
    kinds.iter().copied().unique().collect()
}

/// The filter that lets through the records whose kind is one of a given
/// set.
#[derive(Debug)]
pub struct RecordKindFilter {
    allowed_kinds: Vec<RecordKind>,
}

impl RecordKindFilter {
    #[verifier::type_invariant]
    spec fn no_kind_twice(&self) -> bool {
        self.allowed_kinds@.no_duplicates()
    }

    /// The kinds the filter lets through, each once, in the order in which
    /// they were first given.
    pub closed spec fn allowed(&self) -> Seq<RecordKind> {
        self.allowed_kinds@
    }

    /// A filter for the given kinds; a kind given more than once counts once.
    pub fn new(kinds: &'static [RecordKind]) -> (filter: Self)
        ensures
            filter.allowed() == first_occurrences(kinds@),
            filter.allowed().no_duplicates(),
            forall|kind: RecordKind| filter.allowed().contains(kind) <==> kinds@.contains(kind),
    {
        proof {
            lemma_first_occurrences(kinds@);
        }
        Self { allowed_kinds: unique_kinds(kinds) }
    }
}

impl RecordFilter for RecordKindFilter {
    open spec fn accepts(&self, record: RecordView) -> bool {
        self.allowed().contains(record.kind)
    }

    fn check(&self, record: &Record) -> (accepted: bool) {
        let mut i: usize = 0;
        while i < self.allowed_kinds.len()
            invariant
                0 <= i <= self.allowed_kinds.len(),
                forall|j: int| 0 <= j < i ==> self.allowed_kinds@[j] != record.kind,
            decreases self.allowed_kinds.len() - i,
        {
            if self.allowed_kinds[i] == record.kind {
                return true;
            }
            i += 1;
        }
        false
    }
}

impl RecordFilter for Box<RecordKindFilter> {
    open spec fn accepts(&self, record: RecordView) -> bool {
        (**self).accepts(record)
    }

    fn check(&self, record: &Record) -> (accepted: bool) {
        (**self).check(record)
    }
}

/// The conjunction of a list of filters: a record passes where every filter
/// of the list lets it through. The empty list lets everything through.
pub struct AllFilter {
    filters: Vec<Box<dyn RecordFilter>>,
}

impl AllFilter {
    /// The filters of the conjunction, in order.
    pub closed spec fn filters(&self) -> Seq<Box<dyn RecordFilter>> {
        self.filters@
    }

    pub fn new(filters: Vec<Box<dyn RecordFilter>>) -> (filter: Self)
        ensures
            filter.filters() == filters@,
    {
        Self { filters }
    }
}

impl RecordFilter for AllFilter {
    open spec fn accepts(&self, record: RecordView) -> bool {
        forall|i: int| 0 <= i < self.filters().len() ==> (#[trigger] self.filters()[i]).accepts(record)
    }

    fn check(&self, record: &Record) -> (accepted: bool) {
        let mut i: usize = 0;
        while i < self.filters.len()
            invariant
                0 <= i <= self.filters.len(),
                forall|j: int| 0 <= j < i ==> (#[trigger] self.filters@[j]).accepts(record@),
            decreases self.filters.len() - i,
        {
            if !self.filters[i].check(record) {
                assert(!self.filters()[i as int].accepts(record@));
                return false;
            }
            i += 1;
        }
        true
    }
}

impl RecordFilter for Box<AllFilter> {
    open spec fn accepts(&self, record: RecordView) -> bool {
        (**self).accepts(record)
    }

    fn check(&self, record: &Record) -> (accepted: bool) {
        (**self).check(record)
    }
}

/// The disjunction of a list of filters: a record passes where some filter
/// of the list lets it through. The empty list lets nothing through.
pub struct AnyFilter {
    filters: Vec<Box<dyn RecordFilter>>,
}

impl AnyFilter {
    /// The filters of the disjunction, in order.
    pub closed spec fn filters(&self) -> Seq<Box<dyn RecordFilter>> {
        self.filters@
    }

    pub fn new(filters: Vec<Box<dyn RecordFilter>>) -> (filter: Self)
        ensures
            filter.filters() == filters@,
    {
        Self { filters }
    }
}

impl RecordFilter for AnyFilter {
    open spec fn accepts(&self, record: RecordView) -> bool {
        exists|i: int| 0 <= i < self.filters().len() && (#[trigger] self.filters()[i]).accepts(record)
    }

    fn check(&self, record: &Record) -> (accepted: bool) {
        let mut i: usize = 0;
        while i < self.filters.len()
            invariant
                0 <= i <= self.filters.len(),
                forall|j: int| 0 <= j < i ==> !(#[trigger] self.filters@[j]).accepts(record@),
            decreases self.filters.len() - i,
        {
            if self.filters[i].check(record) {
                assert(self.filters()[i as int].accepts(record@));
                return true;
            }
            i += 1;
        }
        false
    }
}

impl RecordFilter for Box<AnyFilter> {
    open spec fn accepts(&self, record: RecordView) -> bool {
        (**self).accepts(record)
    }

    fn check(&self, record: &Record) -> (accepted: bool) {
        (**self).check(record)
    }
}

/// A conjunction of no filters accepts every record, and a disjunction of no
/// filters accepts none.
pub proof fn lemma_empty_combinators(all: &AllFilter, any: &AnyFilter, record: RecordView)
    requires
        all.filters().len() == 0,
        any.filters().len() == 0,
    ensures
        all.accepts(record),
        !any.accepts(record),
{
}

/// A conjunction or a disjunction of a single filter decides as that filter
/// does.
pub proof fn lemma_single_combinators(
    all: &AllFilter,
    any: &AnyFilter,
    filter: Box<dyn RecordFilter>,
    record: RecordView,
)
    requires
        all.filters() == seq![filter],
        any.filters() == seq![filter],
    ensures
        all.accepts(record) == filter.accepts(record),
        any.accepts(record) == filter.accepts(record),
{
    assert(all.filters()[0] == filter);
    assert(any.filters()[0] == filter);
}

} // verus!
