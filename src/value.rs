use vstd::prelude::*;

use crate::option_descriptor::ValueType;

verus! {

/// The order in which the bytes of a 4-byte word lie in a value buffer: the
/// native library uses the byte order of the machine it runs on.
#[derive(Debug, Clone, Copy, PartialEq, Eq, Structural)]
pub enum ByteOrder {
    Little,
    Big,
}

/// The value of an option, in typed form.
#[derive(Debug, Clone, PartialEq, Eq)]
pub enum Value {
    Bool(Vec<bool>),
    Int(Vec<i32>),
    /// Fixed-point numbers, as their raw 32-bit words.
    Fixed(Vec<i32>),
    /// Text, as its bytes without the terminating zero.
    String(Vec<u8>),
}

/// The mathematical form of a `Value`.
pub enum ValueView {
    Bool(Seq<bool>),
    Int(Seq<i32>),
    Fixed(Seq<i32>),
    String(Seq<u8>),
}

impl View for Value {
    type V = ValueView;

    open spec fn view(&self) -> ValueView {
        match self {
            Value::Bool(b) => ValueView::Bool(b@),
            Value::Int(w) => ValueView::Int(w@),
            Value::Fixed(w) => ValueView::Fixed(w@),
            Value::String(t) => ValueView::String(t@),
        }
    }
}

/// Byte `k` (0 = least significant) of the two's complement form of `w`.
pub open spec fn word_byte(w: i32, k: u32) -> u8 {
    (((w as u32) >> (8 * k)) & 0xff) as u8
}

/// The word whose bytes, from least to most significant, are `b0` to `b3`.
pub open spec fn word_from_bytes(b0: u8, b1: u8, b2: u8, b3: u8) -> i32 {
    #[verifier::truncate]
    (((b0 as u32) | ((b1 as u32) << 8u32) | ((b2 as u32) << 16u32) | ((b3 as u32) << 24u32)) as i32)
}

/// Which byte of a word (0 = least significant) lies at offset `j` (0 to 3)
/// of its four bytes.
pub open spec fn lane(j: int, order: ByteOrder) -> u32 {
    match order {
        ByteOrder::Little => j as u32,
        ByteOrder::Big => (3 - j) as u32,
    }
}

/// The word stored in the four bytes of `bytes` that start at `at`.
pub open spec fn word_at(bytes: Seq<u8>, at: int, order: ByteOrder) -> i32 {
    match order {
        ByteOrder::Little => word_from_bytes(bytes[at], bytes[at + 1], bytes[at + 2], bytes[at + 3]),
        ByteOrder::Big => word_from_bytes(bytes[at + 3], bytes[at + 2], bytes[at + 1], bytes[at]),
    }
}

/// The bytes of a sequence of words, four for each, in the given order.
pub open spec fn words_to_bytes(words: Seq<i32>, order: ByteOrder) -> Seq<u8> {
    Seq::new((4 * words.len()) as nat, |k: int| word_byte(words[k / 4], lane(k % 4, order)))
}

/// The words stored in a buffer whose length is a multiple of four.
pub open spec fn bytes_to_words(bytes: Seq<u8>, order: ByteOrder) -> Seq<i32> {
    Seq::new(bytes.len() / 4, |i: int| word_at(bytes, 4 * i, order))
}

/// Booleans stored one per byte: zero is false, anything else true.
pub open spec fn bytes_to_bools(bytes: Seq<u8>) -> Seq<bool> {
    bytes.map_values(|b: u8| b != 0)
}

/// Booleans written one per byte, as 1 and 0.
pub open spec fn bools_to_bytes(bools: Seq<bool>) -> Seq<u8> {
    bools.map_values(|b: bool| if b { 1u8 } else { 0u8 })
}

/// Whether `n` is the position of the first zero byte of `bytes`.
pub open spec fn is_first_nul(bytes: Seq<u8>, n: int) -> bool {
    &&& 0 <= n < bytes.len()
    &&& bytes[n] == 0
    &&& forall|j: int| 0 <= j < n ==> bytes[j] != 0
}

/// Whether `bytes` holds a zero byte.
pub open spec fn has_nul(bytes: Seq<u8>) -> bool {
    exists|n: int| 0 <= n < bytes.len() && bytes[n] == 0
}

/// Whether a text, as bytes, can be stored with a terminating zero: it holds
/// no zero byte itself.
pub open spec fn nul_free(text: Seq<u8>) -> bool {
    forall|j: int| 0 <= j < text.len() ==> text[j] != 0
}

/// The text stored in a buffer that holds a zero byte: the bytes before the
/// first zero.
pub open spec fn bytes_to_text(bytes: Seq<u8>) -> Seq<u8> {
    bytes.subrange(0, choose|n: int| is_first_nul(bytes, n))
}

/// The bytes of a text in a buffer of `size` bytes: the text, then zeros.
pub open spec fn text_to_bytes(text: Seq<u8>, size: nat) -> Seq<u8> {
    text + Seq::new((size - text.len()) as nat, |i: int| 0u8)
}

/// The first zero byte of a buffer that holds one is unique, and is found.
pub proof fn lemma_first_nul_exists(bytes: Seq<u8>)
    requires
        has_nul(bytes),
    ensures
        exists|n: int| is_first_nul(bytes, n),
        forall|n: int, m: int| is_first_nul(bytes, n) && is_first_nul(bytes, m) ==> n == m,
{
    let k = choose|k: int| 0 <= k < bytes.len() && bytes[k] == 0;
    lemma_first_nul_below(bytes, k);
}

proof fn lemma_first_nul_below(bytes: Seq<u8>, k: int)
    requires
        0 <= k < bytes.len(),
        bytes[k] == 0,
    ensures
        exists|n: int| is_first_nul(bytes, n),
    decreases k,
{
    if forall|j: int| 0 <= j < k ==> bytes[j] != 0 {
        assert(is_first_nul(bytes, k));
    } else {
        let j = choose|j: int| 0 <= j < k && bytes[j] == 0;
        lemma_first_nul_below(bytes, j);
    }
}


/// Whether a buffer filled by the native library has the layout that values
/// of type `t` promise: a whole number of words for numbers, a terminating
/// zero for text.
pub open spec fn layout_ok(t: ValueType, bytes: Seq<u8>) -> bool {
    match t {
        ValueType::Bool => true,
        ValueType::Int | ValueType::Fixed => bytes.len() % 4 == 0,
        ValueType::String => has_nul(bytes),
        ValueType::Button | ValueType::Group => false,
    }
}

/// The value that a buffer of the right layout holds for an option of type `t`.
pub open spec fn buffer_value(t: ValueType, bytes: Seq<u8>, order: ByteOrder) -> ValueView {
    match t {
        ValueType::Bool => ValueView::Bool(bytes_to_bools(bytes)),
        ValueType::Int => ValueView::Int(bytes_to_words(bytes, order)),
        ValueType::Fixed => ValueView::Fixed(bytes_to_words(bytes, order)),
        _ => ValueView::String(bytes_to_text(bytes)),
    }
}

/// Whether `v` fills a buffer of `size` bytes exactly (a text, with its
/// terminating zero, fits in it and holds no zero byte itself).
pub open spec fn size_fits(v: ValueView, size: int) -> bool {
    match v {
        ValueView::Bool(b) => b.len() == size,
        ValueView::Int(w) => 4 * w.len() == size,
        ValueView::Fixed(w) => 4 * w.len() == size,
        ValueView::String(text) => text.len() < size && nul_free(text),
    }
}

/// Whether the kind of `v` is the value type `t`.
pub open spec fn kind_matches(v: ValueView, t: ValueType) -> bool {
    match v {
        ValueView::Bool(_) => t is Bool,
        ValueView::Int(_) => t is Int,
        ValueView::Fixed(_) => t is Fixed,
        ValueView::String(_) => t is String,
    }
}

/// The buffer of `size` bytes that stores `v`.
pub open spec fn value_bytes(v: ValueView, size: nat, order: ByteOrder) -> Seq<u8> {
    match v {
        ValueView::Bool(b) => bools_to_bytes(b),
        ValueView::Int(w) => words_to_bytes(w, order),
        ValueView::Fixed(w) => words_to_bytes(w, order),
        ValueView::String(text) => text_to_bytes(text, size),
    }
}

/// Reading the four bytes of a word back gives the word.
pub proof fn lemma_word_round_trip(w: i32)
    ensures
        word_from_bytes(word_byte(w, 0), word_byte(w, 1), word_byte(w, 2), word_byte(w, 3)) == w,
{
    assert(((((w as u32) >> 0u32) & 0xff) as u8 as u32 | (((((w as u32) >> 8u32) & 0xff) as u8
        as u32) << 8u32) | (((((w as u32) >> 16u32) & 0xff) as u8 as u32) << 16u32) | (((((w
        as u32) >> 24u32) & 0xff) as u8 as u32) << 24u32)) as i32 == w) by (bit_vector);
}

/// Appends the four bytes of `w` in the given order.
fn push_word(out: &mut Vec<u8>, w: i32, order: ByteOrder)
    ensures
        final(out)@ == old(out)@ + seq![
            word_byte(w, lane(0, order)),
            word_byte(w, lane(1, order)),
            word_byte(w, lane(2, order)),
            word_byte(w, lane(3, order)),
        ],
{
    let x = #[verifier::truncate] (w as u32);
    let b0 = #[verifier::truncate] ((x & 0xff) as u8);
    let b1 = #[verifier::truncate] (((x >> 8u32) & 0xff) as u8);
    let b2 = #[verifier::truncate] (((x >> 16u32) & 0xff) as u8);
    let b3 = #[verifier::truncate] (((x >> 24u32) & 0xff) as u8);
    assert(b0 == word_byte(w, 0) && b1 == word_byte(w, 1) && b2 == word_byte(w, 2) && b3
        == word_byte(w, 3)) by {
        assert(x >> 0u32 == x) by (bit_vector);
    }
    match order {
        ByteOrder::Little => {
            out.push(b0);
            out.push(b1);
            out.push(b2);
            out.push(b3);
        },
        ByteOrder::Big => {
            out.push(b3);
            out.push(b2);
            out.push(b1);
            out.push(b0);
        },
    }
}

/// The word stored at offset `at` of `bytes`.
fn read_word(bytes: &Vec<u8>, at: usize, order: ByteOrder) -> (r: i32)
    requires
        at + 4 <= bytes@.len(),
    ensures
        r == word_at(bytes@, at as int, order),
{
    let _len = bytes.len();
    let (b0, b1, b2, b3) = match order {
        ByteOrder::Little => (bytes[at], bytes[at + 1], bytes[at + 2], bytes[at + 3]),
        ByteOrder::Big => (bytes[at + 3], bytes[at + 2], bytes[at + 1], bytes[at]),
    };
    #[verifier::truncate]
    (((b0 as u32) | ((b1 as u32) << 8u32) | ((b2 as u32) << 16u32) | ((b3 as u32) << 24u32)) as i32)
}


proof fn lemma_words_to_bytes_push(words: Seq<i32>, w: i32, order: ByteOrder)
    ensures
        words_to_bytes(words.push(w), order) == words_to_bytes(words, order) + seq![
            word_byte(w, lane(0, order)),
            word_byte(w, lane(1, order)),
            word_byte(w, lane(2, order)),
            word_byte(w, lane(3, order)),
        ],
{
    let l = words_to_bytes(words.push(w), order);
    let r = words_to_bytes(words, order) + seq![
        word_byte(w, lane(0, order)),
        word_byte(w, lane(1, order)),
        word_byte(w, lane(2, order)),
        word_byte(w, lane(3, order)),
    ];
    assert forall|k: int| 0 <= k < l.len() implies l[k] == r[k] by {
        if k < 4 * words.len() {
            assert(k / 4 < words.len());
        } else {
            assert(k / 4 == words.len());
        }
    }
    assert(l =~= r);
}

/// The bytes that store `value` in a buffer of `size` bytes.
pub fn encode_value(value: &Value, size: usize, order: ByteOrder) -> (r: Vec<u8>)
    requires
        size_fits(value@, size as int),
    ensures
        r@ == value_bytes(value@, size as nat, order),
        r@.len() == size,
{
    let mut out: Vec<u8> = Vec::new();
    match value {
        Value::Bool(bools) => {
            let mut i: usize = 0;
            while i < bools.len()
                invariant
                    i <= bools@.len(),
                    out@ == bools_to_bytes(bools@.subrange(0, i as int)),
                decreases bools@.len() - i,
            {
                out.push(if bools[i] { 1u8 } else { 0u8 });
                i = i + 1;
                assert(bools@.subrange(0, i as int) == bools@.subrange(0, i - 1).push(bools@[i - 1]));
                assert(out@ =~= bools_to_bytes(bools@.subrange(0, i as int)));
            }
            assert(bools@.subrange(0, i as int) == bools@);
        },
        Value::Int(words) | Value::Fixed(words) => {
            let mut i: usize = 0;
            while i < words.len()
                invariant
                    i <= words@.len(),
                    out@ == words_to_bytes(words@.subrange(0, i as int), order),
                decreases words@.len() - i,
            {
                proof {
                    lemma_words_to_bytes_push(words@.subrange(0, i as int), words@[i as int], order);
                    assert(words@.subrange(0, i + 1) == words@.subrange(0, i as int).push(words@[i as int]));
                }
                push_word(&mut out, words[i], order);
                i = i + 1;
            }
            assert(words@.subrange(0, i as int) == words@);
        },
        Value::String(text) => {
            let mut i: usize = 0;
            while i < text.len()
                invariant
                    i <= text@.len(),
                    out@ == text@.subrange(0, i as int),
                decreases text@.len() - i,
            {
                out.push(text[i]);
                i = i + 1;
                assert(out@ =~= text@.subrange(0, i as int));
            }
            while i < size
                invariant
                    text@.len() <= i <= size,
                    out@ == text_to_bytes(text@, i as nat),
                decreases size - i,
            {
                out.push(0u8);
                i = i + 1;
                assert(out@ =~= text_to_bytes(text@, i as nat));
            }
        },
    }
    out
}

/// The value that a buffer filled by the native library holds, for an
/// option of type `value_type`.
pub fn decode_value(value_type: ValueType, buffer: &Vec<u8>, order: ByteOrder) -> (r: Value)
    requires
        layout_ok(value_type, buffer@),
    ensures
        r@ == buffer_value(value_type, buffer@, order),
        kind_matches(r@, value_type),
{
    match value_type {
        ValueType::Bool => {
            let mut bools: Vec<bool> = Vec::new();
            let mut i: usize = 0;
            while i < buffer.len()
                invariant
                    i <= buffer@.len(),
                    bools@ == bytes_to_bools(buffer@.subrange(0, i as int)),
                decreases buffer@.len() - i,
            {
                bools.push(buffer[i] != 0);
                i = i + 1;
                assert(bools@ =~= bytes_to_bools(buffer@.subrange(0, i as int)));
            }
            assert(buffer@.subrange(0, i as int) == buffer@);
            Value::Bool(bools)
        },
        ValueType::Int | ValueType::Fixed => {
            let len = buffer.len();
            let count = len / 4;
            let mut words: Vec<i32> = Vec::new();
            let mut i: usize = 0;
            while i < count
                invariant
                    len == buffer@.len(),
                    count == buffer@.len() / 4,
                    i <= count,
                    words@ == bytes_to_words(buffer@, order).subrange(0, i as int),
                decreases count - i,
            {
                words.push(read_word(buffer, 4 * i, order));
                i = i + 1;
                assert(words@ =~= bytes_to_words(buffer@, order).subrange(0, i as int));
            }
            assert(words@ =~= bytes_to_words(buffer@, order));
            match value_type {
                ValueType::Int => Value::Int(words),
                _ => Value::Fixed(words),
            }
        },
        _ => {
            proof {
                lemma_first_nul_exists(buffer@);
            }
            let len = buffer.len();
            let mut text: Vec<u8> = Vec::new();
            let mut i: usize = 0;
            while buffer[i] != 0
                invariant
                    len == buffer@.len(),
                    has_nul(buffer@),
                    exists|n: int| is_first_nul(buffer@, n) && i <= n,
                    text@ == buffer@.subrange(0, i as int),
                decreases buffer@.len() - i,
            {
                text.push(buffer[i]);
                i = i + 1;
                assert(text@ =~= buffer@.subrange(0, i as int));
            }
            assert(is_first_nul(buffer@, i as int));
            Value::String(text)
        },
    }
}


/// Tells whether a buffer that the native library filled for an option of
/// type `value_type` has the layout that the type promises. One that does
/// not is a broken promise of the native library.
pub fn layout_is_valid(value_type: ValueType, buffer: &Vec<u8>) -> (r: bool)
    ensures
        r == layout_ok(value_type, buffer@),
{
    match value_type {
        ValueType::Bool => true,
        ValueType::Int | ValueType::Fixed => buffer.len() % 4 == 0,
        ValueType::String => {
            let mut i: usize = 0;
            while i < buffer.len()
                invariant
                    value_type is String,
                    i <= buffer@.len(),
                    forall|j: int| 0 <= j < i ==> buffer@[j] != 0,
                decreases buffer@.len() - i,
            {
                if buffer[i] == 0 {
                    assert(buffer@[i as int] == 0);
                    return true;
                }
                i = i + 1;
            }
            false
        },
        ValueType::Button | ValueType::Group => false,
    }
}

impl Value {
    /// Whether this value's kind is `value_type`.
    pub fn matches_type(&self, value_type: ValueType) -> (r: bool)
        ensures
            r == kind_matches(self@, value_type),
    {
        match (self, value_type) {
            (Value::Bool(_), ValueType::Bool) => true,
            (Value::Int(_), ValueType::Int) => true,
            (Value::Fixed(_), ValueType::Fixed) => true,
            (Value::String(_), ValueType::String) => true,
            _ => false,
        }
    }

    /// Whether this value fills an option buffer of `size` bytes exactly (a
    /// text, with its terminating zero, fits in it and holds no zero byte).
    pub fn fits_size(&self, size: i32) -> (r: bool)
        ensures
            r == size_fits(self@, size as int),
    {
        match self {
            Value::Bool(b) => size >= 0 && b.len() == size as usize,
            Value::Int(w) | Value::Fixed(w) => size >= 0 && w.len() <= (size as usize) / 4
                && 4 * w.len() == size as usize,
            Value::String(text) => {
                if size < 0 || text.len() >= size as usize {
                    return false;
                }
                let mut i: usize = 0;
                while i < text.len()
                    invariant
                        self@ == ValueView::String(text@),
                        0 <= size,
                        text@.len() < size,
                        i <= text@.len(),
                        forall|j: int| 0 <= j < i ==> text@[j] != 0,
                    decreases text@.len() - i,
                {
                    if text[i] == 0 {
                        assert(text@[i as int] == 0);
                        return false;
                    }
                    i = i + 1;
                }
                true
            },
        }
    }
}

/// Reading back the bytes that store a value of the right size gives the
/// value, and those bytes have the layout that its type promises.
pub proof fn lemma_value_round_trip(v: ValueView, t: ValueType, size: nat, order: ByteOrder)
    requires
        kind_matches(v, t),
        size_fits(v, size as int),
    ensures
        layout_ok(t, value_bytes(v, size, order)),
        buffer_value(t, value_bytes(v, size, order), order) == v,
{
    match v {
        ValueView::Bool(b) => {
            assert(bytes_to_bools(bools_to_bytes(b)) =~= b);
        },
        ValueView::Int(w) => {
            lemma_words_round_trip(w, order);
        },
        ValueView::Fixed(w) => {
            lemma_words_round_trip(w, order);
        },
        ValueView::String(text) => {
            let bytes = text_to_bytes(text, size);
            assert(is_first_nul(bytes, text.len() as int));
            assert(has_nul(bytes));
            lemma_first_nul_exists(bytes);
            assert(bytes.subrange(0, text.len() as int) =~= text);
        },
    }
}

proof fn lemma_words_round_trip(w: Seq<i32>, order: ByteOrder)
    ensures
        words_to_bytes(w, order).len() % 4 == 0,
        bytes_to_words(words_to_bytes(w, order), order) == w,
{
    let bytes = words_to_bytes(w, order);
    assert(bytes.len() == 4 * w.len());
    assert forall|i: int| 0 <= i < w.len() implies #[trigger] word_at(bytes, 4 * i, order) == w[i] by {
        assert((4 * i) / 4 == i && (4 * i) % 4 == 0);
        assert((4 * i + 1) / 4 == i && (4 * i + 1) % 4 == 1);
        assert((4 * i + 2) / 4 == i && (4 * i + 2) % 4 == 2);
        assert((4 * i + 3) / 4 == i && (4 * i + 3) % 4 == 3);
        lemma_word_round_trip(w[i]);
    }
    assert(bytes_to_words(bytes, order) =~= w);
}

} // verus!
