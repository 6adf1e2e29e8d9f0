//! Union schemas: the kinds that the variants of one union type declare.

use crate::kind::{KindTag, KIND_COUNT};
use vstd::prelude::*;
use vstd::slice::slice_to_vec;

verus! {

/// Why a list of variants is not a schema.
#[derive(Clone, Copy, Debug, PartialEq, Eq)]
pub enum SchemaError {
    /// Two variants declare this kind.
    DuplicateKind(KindTag),
}

/// Position `j` holds the first variant whose kind an earlier variant has
/// declared already.
pub open spec fn is_first_repeat(kinds: Seq<KindTag>, j: int) -> bool {
    &&& 0 <= j < kinds.len()
    &&& kinds.take(j).no_duplicates()
    &&& kinds.take(j).contains(kinds[j])
}

/// The kind of the first variant that repeats the kind of an earlier one.
pub open spec fn first_repeated(kinds: Seq<KindTag>) -> KindTag {
    kinds[choose|j: int| is_first_repeat(kinds, j)]
}

/// At most one position of a list is the first to repeat a kind.
pub proof fn lemma_first_repeat_unique(kinds: Seq<KindTag>, i: int, j: int)
    requires
        is_first_repeat(kinds, i),
        is_first_repeat(kinds, j),
    ensures
        i == j,
{
    if i < j {
        let k = choose|k: int| 0 <= k < i && kinds.take(i)[k] == kinds[i];
        assert(kinds.take(j)[k] == kinds.take(j)[i]);
    } else if j < i {
        let k = choose|k: int| 0 <= k < j && kinds.take(j)[k] == kinds[j];
        assert(kinds.take(i)[k] == kinds.take(i)[j]);
    }
}

/// In a list that declares a kind twice some position is the first to repeat
/// a kind, and [`first_repeated`] is the kind that stands there and at an
/// earlier position.
pub proof fn lemma_first_repeated(kinds: Seq<KindTag>) -> (j: int)
    requires
        !kinds.no_duplicates(),
    ensures
        is_first_repeat(kinds, j),
        kinds[j] == first_repeated(kinds),
        exists|i: int| 0 <= i < j && kinds[i] == first_repeated(kinds),
    decreases kinds.len(),
{
    let front = kinds.drop_last();
    let j = if front.no_duplicates() {
        let (a, b) = choose|a: int, b: int|
            0 <= a < kinds.len() && 0 <= b < kinds.len() && a != b && kinds[a] == kinds[b];
        let (earlier, later) = if a < b {
            (a, b)
        } else {
            (b, a)
        };
        if later < front.len() {
            assert(front[earlier] == front[later]);
        }
        assert(front[earlier] == kinds.last());
        kinds.len() - 1
    } else {
        let j = lemma_first_repeated(front);
        assert(kinds.take(j) =~= front.take(j));
        j
    };
    assert(is_first_repeat(kinds, j));
    lemma_first_repeat_unique(kinds, j, choose|j: int| is_first_repeat(kinds, j));
    j
}

/// Whether a list of variants declares a kind twice does not depend on the
/// order in which the variants stand: two lists with the same variants, each
/// as often in one as in the other, are both free of duplicates or both not.
pub proof fn lemma_duplicates_in_any_order(a: Seq<KindTag>, b: Seq<KindTag>)
    requires
        a.to_multiset() == b.to_multiset(),
    ensures
        a.no_duplicates() == b.no_duplicates(),
{
    if a.no_duplicates() {
        a.lemma_multiset_has_no_duplicates();
        b.lemma_multiset_has_no_duplicates_conv();
    }
    if b.no_duplicates() {
        b.lemma_multiset_has_no_duplicates();
        a.lemma_multiset_has_no_duplicates_conv();
    }
}

/// `slots` is the lookup table of `kinds`: the slot of a kind holds the
/// position at which `kinds` declares it, and is empty for a kind that
/// `kinds` does not declare.
spec fn is_index_of(slots: Seq<Option<usize>>, kinds: Seq<KindTag>) -> bool {
    &&& slots.len() == KIND_COUNT
    &&& kinds.len() <= usize::MAX
    &&& forall|i: int|
        0 <= i < kinds.len() ==> slots[(#[trigger] kinds[i]).spec_ordinal() as int] == Some(
            i as usize,
        )
    &&& forall|k: KindTag|
        (#[trigger] slots[k.spec_ordinal() as int]) matches Some(i) ==> i < kinds.len()
            && kinds[i as int] == k
}

/// The declared kinds of one union type, in declaration order, no kind twice.
///
/// Beside the list the schema keeps a table with one slot per kind, so that
/// the variant of a kind is found in constant time.
#[derive(Debug)]
pub struct UnionSchema {
    kinds: Vec<KindTag>,
    slots: [Option<usize>; KIND_COUNT],
}

impl View for UnionSchema {
    type V = Seq<KindTag>;

    /// The declared kinds, in declaration order.
    closed spec fn view(&self) -> Seq<KindTag> {
        self.kinds@
    }
}

impl Clone for UnionSchema {
    /// A schema of the same variants.
    fn clone(&self) -> (copy: Self)
        ensures
            copy@ == self@,
    {
        proof {
            use_type_invariant(self);
        }
        UnionSchema { kinds: slice_to_vec(self.kinds.as_slice()), slots: self.slots }
    }
}

impl UnionSchema {
    #[verifier::type_invariant]
    spec fn indexed(self) -> bool {
        is_index_of(self.slots@, self.kinds@)
    }

    /// Makes the schema of a union type from the kinds of its variants.
    ///
    /// Fails when two variants declare the same kind, wherever in the list
    /// they stand, and reports the kind of the first variant that repeats an
    /// earlier one.
    pub fn build(variants: Vec<KindTag>) -> (res: Result<UnionSchema, SchemaError>)
        ensures
            variants@.no_duplicates() <==> res is Ok,
            res matches Ok(schema) ==> schema@ == variants@,
            res matches Err(e) ==> e == SchemaError::DuplicateKind(first_repeated(variants@)),
    {
        let mut slots: [Option<usize>; KIND_COUNT] = [None; KIND_COUNT];
        let mut i: usize = 0;
        while i < variants.len()
            invariant
                i <= variants.len(),
                is_index_of(slots@, variants@.take(i as int)),
            decreases variants.len() - i,
        {
            let kind = variants[i];
            let slot: usize = kind.ordinal();
            match slots[slot] {
                Some(earlier) => {
                    proof {
                        assert(is_first_repeat(variants@, i as int));
                        let j = choose|j: int| is_first_repeat(variants@, j);
                        lemma_first_repeat_unique(variants@, i as int, j);
                    }
                    return Err(SchemaError::DuplicateKind(kind));
                },
                None => {
                    slots[slot] = Some(i);
                },
            }
            i += 1;
        }
        proof {
            assert(variants@.take(i as int) =~= variants@);
        }
        Ok(UnionSchema { kinds: variants, slots })
    }

    /// The declared kinds, in declaration order. No kind occurs twice.
    pub fn kinds(&self) -> (kinds: &[KindTag])
        ensures
            kinds@ == self@,
            self@.no_duplicates(),
    {
        proof {
            use_type_invariant(self);
        }
        self.kinds.as_slice()
    }

    /// Number of variants.
    pub fn len(&self) -> (n: usize)
        ensures
            n == self@.len(),
    {
        self.kinds.len()
    }

    /// The position, in declaration order, of the variant that declares
    /// `kind`, in constant time; `None` when no variant declares it.
    pub fn lookup(&self, kind: KindTag) -> (variant: Option<usize>)
        ensures
            match variant {
                Some(i) => self@.index_of_first(kind) == Some(i as int),
                None => self@.index_of_first(kind) is None,
            },
    {
        proof {
            use_type_invariant(self);
            self@.index_of_first_ensures(kind);
        }
        self.slots[kind.ordinal()]
    }

    /// Whether a variant declares `kind`.
    pub fn declares(&self, kind: KindTag) -> (declared: bool)
        ensures
            declared == self@.contains(kind),
    {
        proof {
            self@.index_of_first_ensures(kind);
        }
        self.lookup(kind).is_some()
    }
}

} // verus!
