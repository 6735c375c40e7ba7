use vstd::prelude::*;
use crate::model::exchanged;

verus! {

/// `s` with the elements from `lo` up to, not including, `hi` in reverse order.
pub open spec fn range_reversed<T>(s: Seq<T>, lo: int, hi: int) -> Seq<T> {
    Seq::new(
        s.len(),
        |i: int|
            if lo <= i < hi {
                s[lo + hi - 1 - i]
            } else {
                s[i]
            },
    )
}

/// `s` turned `n` places to the left: the element at `n` comes first, and the
/// first `n` elements follow the rest.
pub open spec fn turned_left<T>(s: Seq<T>, n: int) -> Seq<T> {
    s.subrange(n, s.len() as int) + s.subrange(0, n)
}

/// `s` turned `n` places to the right: the last `n` elements come first.
pub open spec fn turned_right<T>(s: Seq<T>, n: int) -> Seq<T> {
    s.subrange(s.len() - n, s.len() as int) + s.subrange(0, s.len() - n)
}

/// A buffer of `width` clones of `value`, with room for `capacity` elements.
pub fn filled_buffer<T: Clone>(width: usize, capacity: usize, value: &T) -> (buffer: Vec<T>)
    ensures
        buffer@.len() == width,
        forall|x: int| 0 <= x < width ==> cloned::<T>(*value, #[trigger] buffer@[x]),
{
    let mut buffer: Vec<T> = Vec::with_capacity(capacity);
    extend_buffer(&mut buffer, width, value);
    buffer
}

/// Appends clones of `value` until the buffer holds `width` elements. A
/// buffer that is already that long is left alone.
pub fn extend_buffer<T: Clone>(buffer: &mut Vec<T>, width: usize, value: &T)
    ensures
        final(buffer)@.len() == if old(buffer)@.len() < width {
            width as nat
        } else {
            old(buffer)@.len()
        },
        forall|x: int| 0 <= x < old(buffer)@.len() ==> final(buffer)@[x] == old(buffer)@[x],
        forall|x: int|
            old(buffer)@.len() <= x < width ==> cloned::<T>(*value, #[trigger] final(buffer)@[x]),
{
    let ghost before = buffer@;
    while buffer.len() < width
        invariant
            before.len() <= buffer@.len(),
            before.len() < width ==> buffer@.len() <= width,
            before.len() >= width ==> buffer@.len() == before.len(),
            forall|x: int| 0 <= x < before.len() ==> buffer@[x] == before[x],
            forall|x: int| before.len() <= x < buffer@.len() ==> cloned::<T>(*value, #[trigger] buffer@[x]),
        decreases width - buffer@.len(),
    {
        buffer.push(value.clone());
    }
}

/// Exchanges the elements at `a` and `b`.
pub fn exchange<T>(slice: &mut [T], a: usize, b: usize)
    requires
        a < old(slice)@.len(),
        b < old(slice)@.len(),
    ensures
        final(slice)@ == exchanged(old(slice)@, a as int, b as int),
{
    if a != b {
        let lo: usize = if a < b { a } else { b };
        let hi: usize = if a < b { b } else { a };
        let ghost before = slice@;
        let (left, right) = slice.split_at_mut(hi);
        core::mem::swap(&mut left[lo], &mut right[0]);
        assert(slice@ =~= exchanged(before, a as int, b as int));
    } else {
        assert(slice@ =~= exchanged(slice@, a as int, b as int));
    }
}

/// Reverses the elements from `lo` up to, not including, `hi`.
pub fn reverse_range<T>(slice: &mut [T], lo: usize, hi: usize)
    requires
        lo <= hi <= old(slice)@.len(),
    ensures
        final(slice)@ == range_reversed(old(slice)@, lo as int, hi as int),
{
    let ghost before = slice@;
    let mut i: usize = lo;
    let mut j: usize = hi;
    while j - i > 1
        invariant
            lo <= i <= j <= hi <= before.len(),
            i + j == lo + hi,
            slice@.len() == before.len(),
            forall|k: int| 0 <= k < before.len() && !(lo <= k < hi) ==> slice@[k] == before[k],
            forall|k: int| lo <= k < i ==> slice@[k] == before[lo + hi - 1 - k],
            forall|k: int| j <= k < hi ==> slice@[k] == before[lo + hi - 1 - k],
            forall|k: int| i <= k < j ==> slice@[k] == before[k],
        decreases j - i,
    {
        exchange(slice, i, j - 1);
        i += 1;
        j -= 1;
    }
    assert(slice@ =~= range_reversed(before, lo as int, hi as int));
}

/// Reverses the whole slice.
pub fn reverse<T>(slice: &mut [T])
    ensures
        final(slice)@ == old(slice)@.reverse(),
{
    let n = slice.len();
    reverse_range(slice, 0, n);
    assert(slice@ =~= old(slice)@.reverse());
}

/// Turns the slice `n` places to the left.
pub fn turn_left<T>(slice: &mut [T], n: usize)
    requires
        n <= old(slice)@.len(),
    ensures
        final(slice)@ == turned_left(old(slice)@, n as int),
{
    let len = slice.len();
    reverse_range(slice, 0, n);
    reverse_range(slice, n, len);
    reverse_range(slice, 0, len);
    assert(slice@ =~= turned_left(old(slice)@, n as int));
}

/// Turns the slice `n` places to the right.
pub fn turn_right<T>(slice: &mut [T], n: usize)
    requires
        n <= old(slice)@.len(),
    ensures
        final(slice)@ == turned_right(old(slice)@, n as int),
{
    let len = slice.len();
    turn_left(slice, len - n);
}

} // verus!
