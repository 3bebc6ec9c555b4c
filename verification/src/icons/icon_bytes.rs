use vstd::prelude::*;

verus! {

/// Last byte of `█` (U+2588) in UTF-8: a lit pixel.
pub const WHITE: u8 = 0x88;
/// Last byte of `░` (U+2591) in UTF-8: a dark pixel.
pub const BLACK: u8 = 0x91;
/// End of a pixel row.
pub const LF: u8 = 0x0a;

/// The first index from `i` on where `target` occurs, or the length.
pub open spec fn seek(arr: Seq<u8>, target: u8, i: int) -> int
    decreases arr.len() - i,
{
    if i >= arr.len() {
        arr.len() as int
    } else if arr[i] == target {
        i
    } else {
        seek(arr, target, i + 1)
    }
}

/// How often `target` occurs in `arr`.
pub open spec fn occurrences(arr: Seq<u8>, target: u8) -> nat
    decreases arr.len(),
{
    if arr.len() == 0 {
        0
    } else {
        occurrences(arr.drop_last(), target) + if arr.last() == target { 1nat } else { 0nat }
    }
}

/// Distance from `start` to the first `target` at or after it, or `default`
/// when there is none.
pub fn position(arr: &[u8], target: u8, start: usize, default: usize) -> (r: usize)
    ensures
        r == if seek(arr@, target, start as int) < arr@.len() {
            seek(arr@, target, start as int) - start
        } else {
            default as int
        },
{
    let mut i = start;
    while i < arr.len()
        invariant
            start <= i,
            seek(arr@, target, start as int) == seek(arr@, target, i as int),
        decreases arr.len() - i,
    {
        if arr[i] == target {
            return i - start;
        }
        i += 1;
    }
    default
}

/// Whether `target` occurs in `arr`.
pub fn any(arr: &[u8], target: u8) -> (r: bool)
    ensures
        r == arr@.contains(target),
{
    let mut i: usize = 0;
    while i < arr.len()
        invariant
            i <= arr.len(),
            forall|k: int| 0 <= k < i ==> arr@[k] != target,
        decreases arr.len() - i,
    {
        if arr[i] == target {
            return true;
        }
        i += 1;
    }
    false
}

/// How often `target` occurs in `arr`.
pub fn count(arr: &[u8], target: u8) -> (r: usize)
    ensures
        r == occurrences(arr@, target),
{
    let mut count: usize = 0;
    let mut i: usize = 0;
    while i < arr.len()
        invariant
            i <= arr.len(),
            count == occurrences(arr@.take(i as int), target),
            count <= i,
        decreases arr.len() - i,
    {
        assert(arr@.take(i + 1).drop_last() =~= arr@.take(i as int));
        if arr[i] == target {
            count += 1;
        }
        i += 1;
    }
    assert(arr@.take(arr.len() as int) =~= arr@);
    count
}

proof fn lemma_seek_bounds(arr: Seq<u8>, target: u8, i: int)
    requires
        0 <= i <= arr.len(),
    ensures
        i <= seek(arr, target, i) <= arr.len(),
        seek(arr, target, i) < arr.len() ==> arr[seek(arr, target, i)] == target,
        forall|k: int| i <= k < seek(arr, target, i) ==> arr[k] != target,
    decreases arr.len() - i,
{
    if i < arr.len() && arr[i] != target {
        lemma_seek_bounds(arr, target, i + 1);
    }
}

proof fn lemma_occurrences_contains(arr: Seq<u8>, target: u8)
    ensures
        occurrences(arr, target) > 0 <==> arr.contains(target),
        occurrences(arr, target) <= arr.len(),
    decreases arr.len(),
{
    if arr.len() > 0 {
        lemma_occurrences_contains(arr.drop_last(), target);
        if arr.drop_last().contains(target) {
            let k = choose|k: int| 0 <= k < arr.drop_last().len() && arr.drop_last()[k] == target;
            assert(arr[k] == target);
        }
        if arr.contains(target) && arr.last() != target {
            let k = choose|k: int| 0 <= k < arr.len() && arr[k] == target;
            assert(arr.drop_last()[k] == target);
        }
    }
}

/// The three searches agree: `target` occurs exactly when it is counted,
/// and then `position` from the start finds its first occurrence.
pub proof fn law_search_agrees(arr: Seq<u8>, target: u8)
    ensures
        occurrences(arr, target) > 0 <==> arr.contains(target),
        arr.contains(target) ==> seek(arr, target, 0) < arr.len() && arr[seek(arr, target, 0)] == target
            && forall|k: int| 0 <= k < seek(arr, target, 0) ==> arr[k] != target,
        !arr.contains(target) ==> seek(arr, target, 0) == arr.len(),
{
    lemma_occurrences_contains(arr, target);
    lemma_seek_bounds(arr, target, 0);
    if !arr.contains(target) && seek(arr, target, 0) < arr.len() {
        assert(arr[seek(arr, target, 0)] == target);
    }
}

/// The same bitmap with every pixel flipped.
pub fn inverse(arr: &[u8]) -> (r: Vec<u8>)
    ensures
        r@.len() == arr@.len(),
        forall|i: int| 0 <= i < arr@.len() ==> #[trigger] r@[i] == !arr@[i],
{
    let mut result: Vec<u8> = Vec::new();
    let mut i: usize = 0;
    while i < arr.len()
        invariant
            i <= arr.len(),
            result@.len() == i,
            forall|k: int| 0 <= k < i ==> #[trigger] result@[k] == !arr@[k],
        decreases arr.len() - i,
    {
        result.push(!arr[i]);
        i += 1;
    }
    result
}

/// Flipping lights every dark pixel and darkens every lit one, and
/// flipping twice gives the bitmap back.
pub proof fn law_inverse_involutive(x: u8, t: u8)
    requires
        t < 8,
    ensures
        !(!x) == x,
        lit(!x, t as int) == !lit(x, t as int),
{
    assert(!(!x) == x) by (bit_vector);
    assert(((!x) >> t) & 1u8 == 1u8 <==> !((x >> t) & 1u8 == 1u8)) by (bit_vector)
        requires
            t < 8,
    ;
}

/// Where the next pixel goes: a byte of the bitmap and a bit in it,
/// counted from the most significant (7) down.
pub open spec fn advance(c: (int, int), byte: u8) -> (int, int) {
    if byte == BLACK || byte == WHITE {
        if c.1 == 0 { (c.0 + 1, 7) } else { (c.0, c.1 - 1) }
    } else if byte == LF {
        (c.0 + 1, 7)
    } else {
        c
    }
}

/// The write position after reading `bytes`: each pixel moves one bit on,
/// to the next byte after the last bit; a line end moves to the next
/// byte's first bit; other bytes (the leading bytes of the UTF-8 pixel
/// characters) are skipped.
pub open spec fn cursor(bytes: Seq<u8>) -> (int, int)
    decreases bytes.len(),
{
    if bytes.len() == 0 {
        (0, 7)
    } else {
        advance(cursor(bytes.drop_last()), bytes.last())
    }
}

/// Bytes before the picture: a line end that opens the text is skipped.
pub open spec fn lead(input: Seq<u8>) -> int {
    if input[0] == LF { 1 } else { 0 }
}

/// Pixels per row: the first row's bytes, three per pixel character.
pub open spec fn icon_width(input: Seq<u8>) -> int {
    let s = lead(input);
    let found = seek(input, LF, s);
    (if found < input.len() { found - s } else { input.len() as int }) / 3
}

/// Rows: the line ends, less an opening one, plus an unterminated last row.
pub open spec fn icon_height(input: Seq<u8>) -> int {
    occurrences(input, LF) - lead(input) + if input.last() != LF { 1int } else { 0int }
}

/// Bytes of the bitmap: each row padded to whole bytes.
pub open spec fn bitmap_len(input: Seq<u8>) -> int {
    let w = icon_width(input);
    icon_height(input) * (w / 8 + if w % 8 == 0 { 0int } else { 1int })
}

/// Whether bit `t` of byte `b` is set by a lit pixel before `upto`.
pub open spec fn painted(input: Seq<u8>, upto: int, b: int, t: int) -> bool {
    exists|k: int|
        lead(input) <= k < upto && input[k] == WHITE && #[trigger] cursor(input.subrange(lead(input), k)) == (b, t)
}

/// Whether every lit pixel lands inside the bitmap.
pub open spec fn pixels_fit(input: Seq<u8>) -> bool {
    forall|k: int|
        lead(input) <= k < input.len() && input[k] == WHITE ==> #[trigger] cursor(input.subrange(lead(input), k)).0
            < bitmap_len(input)
}

/// Bit `t` of `x`.
pub open spec fn lit(x: u8, t: int) -> bool {
    (x >> (t as u8)) & 1u8 == 1u8
}

proof fn lemma_cursor_bounds(bytes: Seq<u8>)
    ensures
        0 <= cursor(bytes).0 <= bytes.len(),
        0 <= cursor(bytes).1 <= 7,
    decreases bytes.len(),
{
    if bytes.len() > 0 {
        lemma_cursor_bounds(bytes.drop_last());
    }
}

proof fn lemma_set_bit(x: u8, o: u8, t: u8)
    requires
        o < 8,
        t < 8,
    ensures
        lit(x | (1u8 << o), t as int) == (lit(x, t as int) || t == o),
        !lit(0u8, t as int),
{
    assert(((x | (1u8 << o)) >> t) & 1u8 == 1u8 <==> (((x >> t) & 1u8 == 1u8) || t == o)) by (bit_vector)
        requires
            o < 8,
            t < 8,
    ;
    assert((0u8 >> t) & 1u8 == 0u8) by (bit_vector);
}

proof fn lemma_painted_step(input: Seq<u8>, i: int, b: int, t: int)
    requires
        0 <= lead(input) <= i < input.len(),
    ensures
        painted(input, i + 1, b, t) == (painted(input, i, b, t) || (input[i] == WHITE && cursor(
            input.subrange(lead(input), i),
        ) == (b, t))),
{
    if painted(input, i + 1, b, t) {
        let k = choose|k: int|
            lead(input) <= k < i + 1 && input[k] == WHITE && #[trigger] cursor(input.subrange(lead(input), k))
                == (b, t);
        if k < i {
            assert(painted(input, i, b, t));
        }
    }
    if input[i] == WHITE && cursor(input.subrange(lead(input), i)) == (b, t) {
        assert(painted(input, i + 1, b, t));
    }
}

/// Encodes a text-art icon, rows of `█` (lit) and `░` (dark) separated by
/// line ends, into a bitmap of whole bytes per row, most significant bit
/// first: each bit is set exactly when a lit pixel lands on it.
pub fn icon_bytes(input: &[u8]) -> (r: Vec<u8>)
    requires
        input@.len() > 0,
        input@.contains(WHITE),
        pixels_fit(input@),
        bitmap_len(input@) <= usize::MAX,
    ensures
        r@.len() == bitmap_len(input@),
        forall|b: int, t: int|
            0 <= b < r@.len() && 0 <= t < 8 ==> (#[trigger] lit(r@[b], t) <==> painted(input@, input@.len() as int, b, t)),
{
    let in_len = input.len();
    let starts_with_lf = input[0] == LF;
    let first_row = if starts_with_lf { position(input, LF, 1, in_len) } else { position(input, LF, 0, in_len) };
    let width = first_row / 3;
    let mut height = count(input, LF);
    proof {
        lemma_occurrences_contains(input@, LF);
        if input@.last() != LF {
            assert(occurrences(input@, LF) == occurrences(input@.drop_last(), LF));
            lemma_occurrences_contains(input@.drop_last(), LF);
        }
    }
    if starts_with_lf {
        height -= 1;
    }
    if input[in_len - 1] != LF {
        height += 1;
    }
    let row = width / 8 + if width % 8 == 0 { 0 } else { 1 };
    assert(height * row == bitmap_len(input@));
    let out_len = height * row;
    let mut out: Vec<u8> = Vec::new();
    while out.len() < out_len
        invariant
            out.len() <= out_len,
            forall|k: int| 0 <= k < out.len() ==> out@[k] == 0u8,
        decreases out_len - out.len(),
    {
        out.push(0);
    }
    let lead_len: usize = if starts_with_lf { 1 } else { 0 };
    let mut i: usize = lead_len;
    let mut index: usize = 0;
    let mut offset: u8 = 7;
    proof {
        assert(input@.subrange(lead_len as int, lead_len as int).len() == 0);
        assert forall|b: int, t: int| 0 <= b < out@.len() && 0 <= t < 8 implies (#[trigger] lit(out@[b], t)
            <==> painted(input@, i as int, b, t)) by {
            lemma_set_bit(0, 0, t as u8);
        }
    }
    while i < in_len
        invariant
            in_len == input@.len(),
            lead_len == lead(input@),
            lead_len <= i <= in_len,
            out@.len() == out_len,
            out_len == bitmap_len(input@),
            pixels_fit(input@),
            (index as int, offset as int) == cursor(input@.subrange(lead_len as int, i as int)),
            forall|b: int, t: int|
                0 <= b < out@.len() && 0 <= t < 8 ==> (#[trigger] lit(out@[b], t) <==> painted(input@, i as int, b, t)),
        decreases in_len - i,
    {
        let ghost before = i as int;
        proof {
            lemma_cursor_bounds(input@.subrange(lead_len as int, i as int));
            assert(input@.subrange(lead_len as int, i + 1).drop_last() =~= input@.subrange(lead_len as int, i as int));
            assert forall|b: int, t: int| 0 <= b < out@.len() && 0 <= t < 8 implies painted(input@, i + 1, b, t) == (
                painted(input@, i as int, b, t) || (input@[i as int] == WHITE && (index as int, offset as int) == (b, t))) by {
                lemma_painted_step(input@, i as int, b, t);
            }
        }
        let byte = input[i];
        i += 1;
        if byte == BLACK {
        } else if byte == WHITE {
            proof {
                assert(cursor(input@.subrange(lead(input@), before)).0 < bitmap_len(input@));
            }
            let ghost old_out = out@;
            out.set(index, out[index] | (1u8 << offset));
            proof {
                assert forall|b: int, t: int| 0 <= b < out@.len() && 0 <= t < 8 implies (#[trigger] lit(out@[b], t)
                    <==> painted(input@, i as int, b, t)) by {
                    lemma_set_bit(old_out[b], offset, t as u8);
                    if b != index {
                        assert(out@[b] == old_out[b]);
                    }
                }
            }
        } else if byte == LF {
            index += 1;
            offset = 7;
            continue ;
        } else {
            continue ;
        }
        if offset == 0 {
            index += 1;
            offset = 7;
        } else {
            offset = offset - 1;
        }
    }
    proof {
        assert(input@.subrange(lead(input@), input@.len() as int) =~= input@.subrange(lead_len as int, in_len as int));
    }
    out
}

/// Whether `icon_bytes` accepts the text: it is not empty, has a lit pixel,
/// every lit pixel lands in the bitmap, and the bitmap's size fits.
pub fn icon_fits(input: &[u8]) -> (r: bool)
    ensures
        r == (input@.len() > 0 && input@.contains(WHITE) && pixels_fit(input@) && bitmap_len(input@)
            <= usize::MAX),
{
    let in_len = input.len();
    if in_len == 0 || !any(input, WHITE) {
        return false;
    }
    let starts_with_lf = input[0] == LF;
    let first_row = if starts_with_lf { position(input, LF, 1, in_len) } else { position(input, LF, 0, in_len) };
    let width = first_row / 3;
    let mut height = count(input, LF);
    proof {
        lemma_occurrences_contains(input@, LF);
        if input@.last() != LF {
            assert(occurrences(input@, LF) == occurrences(input@.drop_last(), LF));
            lemma_occurrences_contains(input@.drop_last(), LF);
        }
    }
    if starts_with_lf {
        height -= 1;
    }
    if input[in_len - 1] != LF {
        height += 1;
    }
    let row = width / 8 + if width % 8 == 0 { 0 } else { 1 };
    let out_len = match height.checked_mul(row) {
        Some(n) => n,
        None => return false,
    };
    assert(out_len == bitmap_len(input@));
    let lead_len: usize = if starts_with_lf { 1 } else { 0 };
    let mut i: usize = lead_len;
    let mut index: usize = 0;
    let mut offset: u8 = 7;
    while i < in_len
        invariant
            in_len == input@.len(),
            lead_len == lead(input@),
            lead_len <= i <= in_len,
            out_len == bitmap_len(input@),
            (index as int, offset as int) == cursor(input@.subrange(lead_len as int, i as int)),
            forall|k: int|
                lead(input@) <= k < i && input@[k] == WHITE ==> #[trigger] cursor(input@.subrange(lead(input@), k)).0
                    < bitmap_len(input@),
        decreases in_len - i,
    {
        proof {
            lemma_cursor_bounds(input@.subrange(lead_len as int, i as int));
            assert(input@.subrange(lead_len as int, i + 1).drop_last() =~= input@.subrange(lead_len as int, i as int));
        }
        let byte = input[i];
        if byte == WHITE && index >= out_len {
            return false;
        }
        i += 1;
        if byte == BLACK || byte == WHITE {
            if offset == 0 {
                index += 1;
                offset = 7;
            } else {
                offset = offset - 1;
            }
        } else if byte == LF {
            index += 1;
            offset = 7;
        }
    }
    true
}

} // verus!
