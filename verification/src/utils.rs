use vstd::prelude::*;
use vstd::string::StringExecFns;

verus! {

/// The sequence obtained by relocating the element at `source` so that the
/// relative order of every other element is preserved.
///
/// For `source < target` this is the sub-range `[source, target)` rotated
/// left by one place; the moved element comes to rest at `target - 1`.
/// For `target <= source` it is the sub-range `[target, source]` rotated
/// right by one place; the moved element comes to rest at `target`.
/// Indices outside the rotated sub-range keep their elements.
pub open spec fn rotated<T>(s: Seq<T>, source: int, target: int) -> Seq<T> {
    Seq::new(
        s.len(),
        |i: int|
            if source < target {
                if i < source || i >= target {
                    s[i]
                } else if i == target - 1 {
                    s[source]
                } else {
                    s[i + 1]
                }
            } else {
                if i < target || i > source {
                    s[i]
                } else if i == target {
                    s[source]
                } else {
                    s[i - 1]
                }
            },
    )
}

/// The inputs on which the strict rotation is defined: one of the two
/// sub-ranges `[source, target)` or `[target, source]` must lie within a
/// sequence of length `len`.
pub open spec fn valid_shift(source: int, target: int, len: int) -> bool {
    (source <= target && target <= len) || (target <= source && source < len)
}

/// The result of the tolerant move: out-of-range indices and `source ==
/// target` leave the sequence untouched, every other pair behaves as the
/// strict rotation does.
pub open spec fn moved<T>(s: Seq<T>, source: int, target: int) -> Seq<T> {
    if source == target || source >= s.len() || target > s.len() {
        s
    } else {
        rotated(s, source, target)
    }
}

/// Reported when neither sub-range of the strict rotation is constructible;
/// it carries the offending indices and the sequence length.
#[derive(Debug, Clone, Copy, PartialEq, Eq, Structural)]
pub enum ShiftSliceError {
    InvalidIndices { source_idx: usize, target_idx: usize, slice_len: usize },
}

/// The character for one decimal digit.
pub open spec fn digit_char(d: nat) -> char {
    if d == 0 {
        '0'
    } else if d == 1 {
        '1'
    } else if d == 2 {
        '2'
    } else if d == 3 {
        '3'
    } else if d == 4 {
        '4'
    } else if d == 5 {
        '5'
    } else if d == 6 {
        '6'
    } else if d == 7 {
        '7'
    } else if d == 8 {
        '8'
    } else {
        '9'
    }
}

/// The decimal representation of `n`, most significant digit first and
/// without leading zeros (a single `'0'` for zero itself).
pub open spec fn decimal_rep(n: nat) -> Seq<char>
    decreases n,
{
    if n < 10 {
        seq![digit_char(n)]
    } else {
        decimal_rep(n / 10).push(digit_char(n % 10))
    }
}

/// Append the decimal representation of `n` to `s`.
fn push_decimal(s: &mut String, n: usize)
    ensures
        final(s)@ == old(s)@ + decimal_rep(n as nat),
    decreases n,
{
    if n >= 10 {
        push_decimal(s, n / 10);
    }
    let digit: &str = match n % 10 {
        0 => "0",
        1 => "1",
        2 => "2",
        3 => "3",
        4 => "4",
        5 => "5",
        6 => "6",
        7 => "7",
        8 => "8",
        _ => "9",
    };
    s.append(digit);
    proof {
        reveal_strlit("0");
        reveal_strlit("1");
        reveal_strlit("2");
        reveal_strlit("3");
        reveal_strlit("4");
        reveal_strlit("5");
        reveal_strlit("6");
        reveal_strlit("7");
        reveal_strlit("8");
        reveal_strlit("9");
        assert(digit@ =~= seq![digit_char((n % 10) as nat)]);
        assert(s@ =~= old(s)@ + decimal_rep(n as nat));
    }
}

/// The text reported for an invalid-indices failure.
pub open spec fn invalid_indices_message(source: nat, target: nat, len: nat) -> Seq<char> {
    "Failed to move item from index "@ + decimal_rep(source) + " to index "@ + decimal_rep(
        target,
    ) + ". Slice has "@ + decimal_rep(len) + " elements"@
}

impl ShiftSliceError {
    /// Human-readable description of the failure, naming the source index,
    /// the target index and the sequence length.
    pub fn message(&self) -> (r: String)
        ensures
            self matches ShiftSliceError::InvalidIndices { source_idx, target_idx, slice_len }
                ==> r@ == invalid_indices_message(
                source_idx as nat,
                target_idx as nat,
                slice_len as nat,
            ),
    {
        match self {
            ShiftSliceError::InvalidIndices { source_idx, target_idx, slice_len } => {
                let mut s = String::new();
                s.append("Failed to move item from index ");
                push_decimal(&mut s, *source_idx);
                s.append(" to index ");
                push_decimal(&mut s, *target_idx);
                s.append(". Slice has ");
                push_decimal(&mut s, *slice_len);
                s.append(" elements");
                proof {
                    assert(s@ =~= invalid_indices_message(
                        *source_idx as nat,
                        *target_idx as nat,
                        *slice_len as nat,
                    ));
                }
                s
            },
        }
    }
}

/// Strict rotation primitive: move the element at `source_idx` to the slot
/// `target_idx`, shifting the elements in between by one place.
///
/// The element previously at `source_idx` ends up at `target_idx - 1` when
/// `target_idx > source_idx`, and at `target_idx` otherwise; this matches
/// grabbing an item in a list and dropping it at another position. Invalid
/// indices are an error, never a silent no-op.
pub fn shift_slice<T>(source_idx: usize, target_idx: usize, to_shift: &mut Vec<T>) -> (result:
    Result<(), ShiftSliceError>)
    ensures
        result is Ok <==> valid_shift(
            source_idx as int,
            target_idx as int,
            old(to_shift)@.len() as int,
        ),
        result is Ok ==> final(to_shift)@ == rotated(
            old(to_shift)@,
            source_idx as int,
            target_idx as int,
        ),
        result is Err ==> final(to_shift)@ == old(to_shift)@,
        result is Err ==> result == Err::<(), ShiftSliceError>(
            ShiftSliceError::InvalidIndices {
                source_idx,
                target_idx,
                slice_len: old(to_shift).len(),
            },
        ),
{
    let len = to_shift.len();
    if source_idx < target_idx && target_idx <= len {
        // rotate the sub-range [source_idx, target_idx) left by one
        let elem = to_shift.remove(source_idx);
        to_shift.insert(target_idx - 1, elem);
        proof {
            assert(to_shift@ =~= rotated(old(to_shift)@, source_idx as int, target_idx as int));
        }
        Ok(())
    } else if target_idx <= source_idx && source_idx < len {
        // rotate the sub-range [target_idx, source_idx] right by one
        let elem = to_shift.remove(source_idx);
        to_shift.insert(target_idx, elem);
        proof {
            assert(to_shift@ =~= rotated(old(to_shift)@, source_idx as int, target_idx as int));
        }
        Ok(())
    } else if source_idx == target_idx && source_idx <= len {
        // both indices sit one past the end: the sub-range is empty
        proof {
            assert(to_shift@ =~= rotated(old(to_shift)@, source_idx as int, target_idx as int));
        }
        Ok(())
    } else {
        Err(ShiftSliceError::InvalidIndices { source_idx, target_idx, slice_len: len })
    }
}

/// Tolerant move primitive for committing a finished drag to an owned
/// sequence: equal or out-of-range indices are a silent no-op, since they
/// arise naturally when a drag is dropped back where it started or cancelled
/// mid-frame.
pub fn shift_vec<T>(source_idx: usize, target_idx: usize, vec: &mut Vec<T>)
    ensures
        final(vec)@ == moved(old(vec)@, source_idx as int, target_idx as int),
        source_idx == target_idx ==> final(vec)@ == old(vec)@,
{
    let len = vec.len();
    if source_idx == target_idx || source_idx >= len || target_idx > len {
        return ;
    }
    let elem = vec.remove(source_idx);
    let slot = if source_idx < target_idx {
        // removing the source shifted everything after it left by one
        target_idx - 1
    } else {
        target_idx
    };
    vec.insert(slot, elem);
    proof {
        assert(vec@ =~= moved(old(vec)@, source_idx as int, target_idx as int));
    }
}

/// Law: a left rotation of `[source, target)` places the source element at
/// `target - 1`, shifts the elements strictly between one place left, and
/// leaves every element outside the sub-range unchanged.
pub proof fn lemma_rotate_left<T>(s: Seq<T>, source: int, target: int)
    requires
        0 <= source < target <= s.len(),
    ensures
        rotated(s, source, target).len() == s.len(),
        rotated(s, source, target)[target - 1] == s[source],
        forall|i: int| source <= i < target - 1 ==> rotated(s, source, target)[i] == s[i + 1],
        forall|i: int|
            (0 <= i < source || target <= i < s.len()) ==> rotated(s, source, target)[i] == s[i],
{
}

/// Law: a right rotation of `[target, source]` places the source element at
/// `target`, shifts the elements of `[target, source)` one place right, and
/// leaves every element outside the sub-range unchanged.
pub proof fn lemma_rotate_right<T>(s: Seq<T>, source: int, target: int)
    requires
        0 <= target <= source < s.len(),
    ensures
        rotated(s, source, target).len() == s.len(),
        rotated(s, source, target)[target] == s[source],
        forall|i: int| target < i <= source ==> rotated(s, source, target)[i] == s[i - 1],
        forall|i: int|
            (0 <= i < target || source < i < s.len()) ==> rotated(s, source, target)[i] == s[i],
{
}

/// Law: the strict and the tolerant primitive produce identical final
/// orderings for every `(source, target)` pair that both accept; they differ
/// only in how they answer indices outside that range.
pub proof fn lemma_move_matches_rotation<T>(s: Seq<T>, source: int, target: int)
    requires
        0 <= source < s.len(),
        0 <= target <= s.len(),
    ensures
        moved(s, source, target) == rotated(s, source, target),
{
    if source == target {
        assert(rotated(s, source, target) =~= s);
    }
}

/// Law: the tolerant move is its own semantic inverse once the return trip
/// accounts for the post-move shift. After moving `source` to `target`, the
/// moved element sits at `target - 1` (when it moved forward) or `target`
/// (when it moved backward); moving it from there back to where it came from
/// restores the original sequence exactly.
pub proof fn lemma_move_inverse<T>(s: Seq<T>, source: int, target: int)
    requires
        0 <= source < s.len(),
        0 <= target <= s.len(),
    ensures
        source == target ==> moved(s, source, target) == s,
        source < target ==> moved(moved(s, source, target), target - 1, source) == s,
        target < source ==> moved(moved(s, source, target), target, source + 1) == s,
{
    if source < target {
        assert(moved(moved(s, source, target), target - 1, source) =~= s);
    } else if target < source {
        assert(moved(moved(s, source, target), target, source + 1) =~= s);
    }
}

} // verus!
