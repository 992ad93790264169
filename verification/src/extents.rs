//! Extents of a tensor: how many elements they span, and the strides that lay
//! those elements out in row-major order.

use vstd::arithmetic::div_mod::*;
use vstd::arithmetic::mul::*;
use vstd::prelude::*;

verus! {

/// The product of the extents, which is the number of elements they span.
pub open spec fn product(extents: Seq<i64>) -> int
    decreases extents.len(),
{
    if extents.len() == 0 {
        1
    } else {
        product(extents.drop_last()) * extents.last()
    }
}

/// Whether a count can be held in an `i64`.
pub open spec fn fits_i64(n: int) -> bool {
    i64::MIN <= n <= i64::MAX
}

/// The product can be taken from the first extent on without overflow.
pub open spec fn prefix_products_fit(extents: Seq<i64>) -> bool {
    forall|k: int|
        0 <= k <= extents.len() ==> fits_i64(#[trigger] product(extents.take(k)))
}

/// The product can be taken from the last extent back without overflow.
pub open spec fn suffix_products_fit(extents: Seq<i64>) -> bool {
    forall|k: int|
        0 <= k <= extents.len() ==> fits_i64(#[trigger] product(extents.skip(k)))
}

/// `strides` lay the elements out in row-major order without gaps: a step
/// along a dimension passes over all elements of the dimensions after it.
pub open spec fn is_row_major(extents: Seq<i64>, strides: Seq<i64>) -> bool {
    &&& strides.len() == extents.len()
    &&& forall|i: int|
        0 <= i < extents.len() ==> #[trigger] strides[i] == product(extents.skip(i + 1))
}

/// `strides` are row-major from dimension `i` on.
pub open spec fn row_major_from(extents: Seq<i64>, strides: Seq<i64>, i: int) -> bool {
    forall|k: int|
        i <= k < extents.len() ==> #[trigger] strides[k] == product(extents.skip(k + 1))
}

/// Extents and strides can be compared, from the last dimension back to the
/// first that differs, without overflow.
pub open spec fn row_major_computable(extents: Seq<i64>, strides: Seq<i64>) -> bool {
    forall|i: int|
        0 <= i < extents.len() && #[trigger] row_major_from(extents, strides, i) ==> fits_i64(
            product(extents.skip(i)),
        )
}

/// The number of elements as the machine counts them: the product as a `usize`.
/// A product that is negative, or too large for it, wraps.
pub open spec fn element_count(extents: Seq<i64>) -> int {
    (product(extents) as usize) as int
}

/// The row-major strides of `extents`.
pub open spec fn row_major(extents: Seq<i64>) -> Seq<i64> {
    Seq::new(extents.len(), |i: int| product(extents.skip(i + 1)) as i64)
}

/// Taking one more extent into a prefix multiplies its product by it.
pub proof fn lemma_product_take(extents: Seq<i64>, k: int)
    requires
        0 <= k < extents.len(),
    ensures
        product(extents.take(k + 1)) == product(extents.take(k)) * extents[k],
{
    assert(extents.take(k + 1).drop_last() =~= extents.take(k));
}

/// The product splits into the first extent and the rest.
pub proof fn lemma_product_first(extents: Seq<i64>)
    requires
        extents.len() > 0,
    ensures
        product(extents) == extents[0] * product(extents.skip(1)),
    decreases extents.len(),
{
    let init = extents.drop_last();
    if extents.len() == 1 {
        assert(init =~= Seq::<i64>::empty());
        assert(extents.skip(1) =~= Seq::<i64>::empty());
        assert(product(init) == 1);
    } else {
        lemma_product_first(init);
        assert(extents.skip(1).drop_last() =~= init.skip(1));
        lemma_mul_is_associative(
            extents[0] as int,
            product(init.skip(1)),
            extents.last() as int,
        );
    }
}

/// Dropping one extent off the front of a suffix divides its product by it.
pub proof fn lemma_product_skip(extents: Seq<i64>, k: int)
    requires
        0 <= k < extents.len(),
    ensures
        product(extents.skip(k)) == extents[k] * product(extents.skip(k + 1)),
{
    lemma_product_first(extents.skip(k));
    assert(extents.skip(k).skip(1) =~= extents.skip(k + 1));
}

/// The product of the extents, or `None` where taking it from the first extent
/// on would overflow.
pub fn checked_product(extents: &[i64]) -> (count: Option<i64>)
    ensures
        count is Some <==> prefix_products_fit(extents@),
        count matches Some(n) ==> n == product(extents@),
{
    let mut count: i64 = 1;
    let mut i: usize = 0;
    assert(extents@.take(0) =~= Seq::<i64>::empty());
    while i < extents.len()
        invariant
            i <= extents@.len(),
            count == product(extents@.take(i as int)),
            forall|k: int| 0 <= k <= i ==> fits_i64(#[trigger] product(extents@.take(k))),
        decreases extents@.len() - i,
    {
        proof {
            lemma_product_take(extents@, i as int);
        }
        match count.checked_mul(extents[i]) {
            Some(next) => {
                count = next;
            },
            None => {
                assert(!fits_i64(product(extents@.take(i + 1))));
                return None;
            },
        }
        i = i + 1;
    }
    assert(extents@.take(extents@.len() as int) =~= extents@);
    Some(count)
}

/// The row-major strides of the extents, or `None` where the product taken from
/// the last extent back would overflow.
pub fn checked_strides(extents: &[i64]) -> (strides: Option<Vec<i64>>)
    ensures
        strides is Some <==> suffix_products_fit(extents@),
        strides matches Some(s) ==> s@ == row_major(extents@),
{
    let mut strides: Vec<i64> = Vec::new();
    let mut i: usize = 0;
    while i < extents.len()
        invariant
            i <= extents@.len(),
            strides@.len() == i,
        decreases extents@.len() - i,
    {
        strides.push(0);
        i = i + 1;
    }
    let mut stride: i64 = 1;
    assert(extents@.skip(i as int) =~= Seq::<i64>::empty());
    while i > 0
        invariant
            i <= extents@.len(),
            strides@.len() == extents@.len(),
            stride == product(extents@.skip(i as int)),
            forall|k: int|
                i <= k <= extents@.len() ==> fits_i64(#[trigger] product(extents@.skip(k))),
            forall|k: int|
                i <= k < extents@.len() ==> #[trigger] strides@[k] == product(
                    extents@.skip(k + 1),
                ),
        decreases i,
    {
        i = i - 1;
        strides.set(i, stride);
        proof {
            lemma_product_skip(extents@, i as int);
            lemma_mul_is_commutative(stride as int, extents@[i as int] as int);
        }
        match stride.checked_mul(extents[i]) {
            Some(next) => {
                stride = next;
            },
            None => {
                assert(!fits_i64(product(extents@.skip(i as int))));
                return None;
            },
        }
    }
    assert(strides@ =~= row_major(extents@));
    Some(strides)
}

/// Whether `strides` lay out `extents` in row-major order without gaps, or
/// `None` where comparing them, from the last dimension back to the first that
/// differs, would overflow.
pub fn checked_row_major(extents: &[i64], strides: &[i64]) -> (row_major: Option<bool>)
    requires
        strides@.len() == extents@.len(),
    ensures
        row_major is Some <==> row_major_computable(extents@, strides@),
        row_major matches Some(answer) ==> answer == is_row_major(extents@, strides@),
{
    let mut expected: i64 = 1;
    let mut i: usize = extents.len();
    assert(extents@.skip(i as int) =~= Seq::<i64>::empty());
    while i > 0
        invariant
            i <= extents@.len(),
            strides@.len() == extents@.len(),
            expected == product(extents@.skip(i as int)),
            row_major_from(extents@, strides@, i as int),
            forall|k: int|
                i <= k < extents@.len() ==> fits_i64(#[trigger] product(extents@.skip(k))),
        decreases i,
    {
        i = i - 1;
        if strides[i] != expected {
            assert forall|k: int|
                0 <= k < extents@.len() && #[trigger] row_major_from(
                    extents@,
                    strides@,
                    k,
                ) implies fits_i64(product(extents@.skip(k))) by {
                assert(k > i) by {
                    if k <= i {
                        assert(strides@[i as int] == product(extents@.skip(i + 1)));
                    }
                }
            }
            return Some(false);
        }
        assert(row_major_from(extents@, strides@, i as int));
        proof {
            lemma_product_skip(extents@, i as int);
            lemma_mul_is_commutative(expected as int, extents@[i as int] as int);
        }
        match expected.checked_mul(extents[i]) {
            Some(next) => {
                expected = next;
            },
            None => {
                return None;
            },
        }
    }
    Some(true)
}

/// No extents span one element, and one more dimension, at either end,
/// multiplies the number of elements by its extent.
pub proof fn law_product_is_multiplicative(extents: Seq<i64>, extent: i64)
    ensures
        product(Seq::<i64>::empty()) == 1,
        product(extents.push(extent)) == product(extents) * extent,
        product(seq![extent] + extents) == extent * product(extents),
{
    assert(extents.push(extent).drop_last() =~= extents);
    let longer = seq![extent] + extents;
    lemma_product_first(longer);
    assert(longer.skip(1) =~= extents);
}

/// Extents can be counted from the front exactly where every product on the way
/// is an `i64`, and from the back likewise.
pub proof fn law_products_fit_on_the_way(extents: Seq<i64>)
    ensures
        prefix_products_fit(extents) <==> forall|k: int|
            0 <= k <= extents.len() ==> i64::MIN <= #[trigger] product(extents.take(k))
                <= i64::MAX,
        suffix_products_fit(extents) <==> forall|k: int|
            0 <= k <= extents.len() ==> i64::MIN <= #[trigger] product(extents.skip(k))
                <= i64::MAX,
{
    if forall|k: int|
        0 <= k <= extents.len() ==> i64::MIN <= #[trigger] product(extents.take(k)) <= i64::MAX {
        assert forall|k: int| 0 <= k <= extents.len() implies fits_i64(
            #[trigger] product(extents.take(k)),
        ) by {}
    }
    if prefix_products_fit(extents) {
        assert forall|k: int| 0 <= k <= extents.len() implies i64::MIN <= #[trigger] product(
            extents.take(k),
        ) <= i64::MAX by {
            assert(fits_i64(product(extents.take(k))));
        }
    }
    if forall|k: int|
        0 <= k <= extents.len() ==> i64::MIN <= #[trigger] product(extents.skip(k)) <= i64::MAX {
        assert forall|k: int| 0 <= k <= extents.len() implies fits_i64(
            #[trigger] product(extents.skip(k)),
        ) by {}
    }
    if suffix_products_fit(extents) {
        assert forall|k: int| 0 <= k <= extents.len() implies i64::MIN <= #[trigger] product(
            extents.skip(k),
        ) <= i64::MAX by {
            assert(fits_i64(product(extents.skip(k))));
        }
    }
}

/// A count that the machine can hold is the product itself.
pub proof fn law_count_is_the_product(extents: Seq<i64>)
    ensures
        0 <= product(extents) <= usize::MAX ==> element_count(extents) == product(extents),
        0 <= element_count(extents) <= usize::MAX,
{
}

/// A count that the machine cannot hold wraps: it differs from the product by a
/// whole number of times what the machine can hold.
pub proof fn law_count_wraps(extents: Seq<i64>)
    requires
        i64::MIN <= product(extents) <= i64::MAX,
    ensures
        element_count(extents) == product(extents) % (usize::MAX + 1),
{
    let count = product(extents) as i64;
    let wide = count as u64;
    let wrapped = count as usize;
    assert(count < 0 ==> wide == count + 0x1_0000_0000_0000_0000) by (bit_vector)
        requires
            wide == count as u64,
    ;
    assert(wrapped == wide % 0x1_0000_0000 || usize::BITS == 64) by (bit_vector)
        requires
            wide == count as u64,
            wrapped == count as usize,
    ;
    assert(wrapped == wide || usize::BITS == 32) by (bit_vector)
        requires
            wide == count as u64,
            wrapped == count as usize,
    ;
    if count < 0 {
        if usize::BITS == 32 {
            assert(usize::MAX + 1 == 0x1_0000_0000);
            lemma_mod_multiples_vanish(0x1_0000_0000, count as int, 0x1_0000_0000);
        } else {
            assert(usize::MAX + 1 == 0x1_0000_0000_0000_0000);
            lemma_mod_multiples_vanish(1, count as int, 0x1_0000_0000_0000_0000);
            lemma_small_mod(wide as nat, 0x1_0000_0000_0000_0000);
        }
    } else {
        if usize::BITS == 32 {
            assert(usize::MAX + 1 == 0x1_0000_0000);
        } else {
            assert(usize::MAX + 1 == 0x1_0000_0000_0000_0000);
            lemma_small_mod(wide as nat, 0x1_0000_0000_0000_0000);
        }
    }
}

/// A stride that follows from those after it is the product of the extents
/// after it.
proof fn lemma_steps_multiply(extents: Seq<i64>, strides: Seq<i64>, i: int)
    requires
        strides.len() == extents.len(),
        0 <= i < extents.len(),
        strides.last() == 1,
        forall|k: int|
            0 <= k < extents.len() - 1 ==> #[trigger] strides[k] == strides[k + 1] * extents[k
                + 1],
    ensures
        strides[i] == product(extents.skip(i + 1)),
    decreases extents.len() - i,
{
    if i == extents.len() - 1 {
        assert(extents.skip(i + 1) =~= Seq::<i64>::empty());
    } else {
        lemma_steps_multiply(extents, strides, i + 1);
        lemma_product_skip(extents, i + 1);
        lemma_mul_is_commutative(strides[i + 1] as int, extents[i + 1] as int);
    }
}

/// Strides are row-major exactly where the last dimension steps by one element,
/// and every other by the whole of the dimension after it.
pub proof fn law_row_major_by_steps(extents: Seq<i64>, strides: Seq<i64>)
    requires
        strides.len() == extents.len(),
    ensures
        is_row_major(extents, strides) <==> {
            &&& extents.len() > 0 ==> strides.last() == 1
            &&& forall|i: int|
                0 <= i < extents.len() - 1 ==> #[trigger] strides[i] == strides[i + 1]
                    * extents[i + 1]
        },
{
    if is_row_major(extents, strides) {
        if extents.len() > 0 {
            let last = extents.len() - 1;
            assert(strides[last] == product(extents.skip(last + 1)));
            assert(extents.skip(last + 1) =~= Seq::<i64>::empty());
        }
        assert forall|i: int| 0 <= i < extents.len() - 1 implies #[trigger] strides[i]
            == strides[i + 1] * extents[i + 1] by {
            lemma_product_skip(extents, i + 1);
            assert(strides[i + 1] == product(extents.skip(i + 1 + 1)));
            lemma_mul_is_commutative(strides[i + 1] as int, extents[i + 1] as int);
        }
    }
    if (extents.len() > 0 ==> strides.last() == 1) && forall|i: int|
        0 <= i < extents.len() - 1 ==> #[trigger] strides[i] == strides[i + 1] * extents[i + 1] {
        assert forall|i: int| 0 <= i < extents.len() implies #[trigger] strides[i] == product(
            extents.skip(i + 1),
        ) by {
            lemma_steps_multiply(extents, strides, i);
        }
    }
}

/// Row-major strides can be told from others exactly where every product that
/// is reached is an `i64`: that of the extents from `i` on is reached where all
/// strides from `i` on are row-major.
pub proof fn law_row_major_is_computable(extents: Seq<i64>, strides: Seq<i64>)
    ensures
        row_major_computable(extents, strides) <==> forall|i: int|
            0 <= i < extents.len() && (forall|k: int|
                i <= k < extents.len() ==> #[trigger] strides[k] == product(extents.skip(k + 1)))
                ==> i64::MIN <= #[trigger] product(extents.skip(i)) <= i64::MAX,
        suffix_products_fit(extents) ==> row_major_computable(extents, strides),
{
    if row_major_computable(extents, strides) {
        assert forall|i: int|
            0 <= i < extents.len() && (forall|k: int|
                i <= k < extents.len() ==> #[trigger] strides[k] == product(
                    extents.skip(k + 1),
                )) implies i64::MIN <= #[trigger] product(extents.skip(i)) <= i64::MAX by {
            assert(row_major_from(extents, strides, i));
        }
    }
    if suffix_products_fit(extents) {
        assert forall|i: int|
            0 <= i < extents.len() && #[trigger] row_major_from(
                extents,
                strides,
                i,
            ) implies fits_i64(product(extents.skip(i))) by {}
    }
}

/// The row-major strides of extents, one for each dimension, are row-major.
pub proof fn law_row_major_strides(extents: Seq<i64>)
    requires
        suffix_products_fit(extents),
    ensures
        row_major(extents).len() == extents.len(),
        is_row_major(extents, row_major(extents)),
{
    assert forall|i: int| 0 <= i < extents.len() implies #[trigger] row_major(extents)[i]
        == product(extents.skip(i + 1)) by {
        assert(fits_i64(product(extents.skip(i + 1))));
    }
}

} // verus!
