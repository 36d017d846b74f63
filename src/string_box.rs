use vstd::prelude::*;
use vstd::utf8::{decode_utf8, encode_utf8, is_scalar, valid_utf8};

use core::ops::Range;
use widestring::U32String;

verus! {

#[verifier::external_type_specification]
#[verifier::external_body]
pub struct ExU32String(U32String);

/// The code units a wide string holds.
pub uninterp spec fn wide_units(s: U32String) -> Seq<u32>;

/// The text that lossy UTF-8 decoding makes of `bytes`.
pub uninterp spec fn utf8_lossy_of(bytes: Seq<u8>) -> Seq<char>;

/// Relies on the derived `Clone` of `widestring::U32String`: the copy holds the same units.
pub assume_specification[ <U32String as Clone>::clone ](s: &U32String) -> (r: U32String)
    ensures
        wide_units(r) == wide_units(*s),
;

/// The character that a 32-bit code unit decodes to: itself when it is a Unicode scalar value,
/// else the replacement character.
pub open spec fn decodes_to(unit: u32, c: char) -> bool {
    c as u32 == if is_scalar(unit) {
        unit
    } else {
        0xFFFDu32
    }
}

/// Relies on `widestring::U32String::from_vec`: the wide string holds exactly the given units.
#[verifier::external_body]
fn wide_from_vec(data: Vec<u32>) -> (r: U32String)
    ensures
        wide_units(r) == data@,
{
    U32String::from_vec(data)
}

/// Relies on `widestring::U32Str::to_string_lossy`: each unit becomes one character, the
/// replacement character where the unit is not a Unicode scalar value.
#[verifier::external_body]
fn wide_to_string_lossy(s: &U32String) -> (r: String)
    ensures
        r@.len() == wide_units(*s).len(),
        forall|i: int| 0 <= i < r@.len() ==> decodes_to(wide_units(*s)[i], #[trigger] r@[i]),
{
    s.to_string_lossy()
}

/// Relies on `String::from_utf8_lossy`: valid UTF-8 decodes as it is.
#[verifier::external_body]
fn utf8_lossy(bytes: &[u8]) -> (r: String)
    ensures
        r@ == utf8_lossy_of(bytes@),
        valid_utf8(bytes@) ==> r@ == decode_utf8(bytes@),
{
    String::from_utf8_lossy(bytes).into_owned()
}

/// Relies on `Iterator::collect` into `String`: the characters in order.
#[verifier::external_body]
fn string_from_chars(chars: &Vec<char>) -> (r: String)
    ensures
        r@ == chars@,
{
    chars.iter().collect()
}

/// Relies on `str::chars`: the characters of the text in order.
#[verifier::external_body]
fn chars_of(s: &str) -> (r: Vec<char>)
    ensures
        r@ == s@,
{
    s.chars().collect()
}

/// The number of bytes that `c` takes in UTF-8.
pub open spec fn utf8_width(c: char) -> int {
    if c as u32 <= 0x7F {
        1
    } else if c as u32 <= 0x7FF {
        2
    } else if c as u32 <= 0xFFFF {
        3
    } else {
        4
    }
}

/// The number of UTF-16 code units that `c` takes.
pub open spec fn utf16_width(c: char) -> int {
    if c as u32 <= 0xFFFF {
        1
    } else {
        2
    }
}

/// The number of bytes that `s` takes in UTF-8.
pub open spec fn utf8_len(s: Seq<char>) -> int
    decreases s.len(),
{
    if s.len() == 0 {
        0
    } else {
        utf8_width(s[0]) + utf8_len(s.drop_first())
    }
}

/// The number of UTF-16 code units that `s` takes.
pub open spec fn utf16_len(s: Seq<char>) -> int
    decreases s.len(),
{
    if s.len() == 0 {
        0
    } else {
        utf16_width(s[0]) + utf16_len(s.drop_first())
    }
}

/// The byte offset at which character `k` of `s` starts.
pub open spec fn byte_offset(s: Seq<char>, k: int) -> int {
    utf8_len(s.take(k))
}

/// The UTF-16 offset at which character `k` of `s` starts.
pub open spec fn utf16_offset(s: Seq<char>, k: int) -> int {
    utf16_len(s.take(k))
}

proof fn lemma_len_push(s: Seq<char>, c: char)
    ensures
        utf8_len(s.push(c)) == utf8_len(s) + utf8_width(c),
        utf16_len(s.push(c)) == utf16_len(s) + utf16_width(c),
    decreases s.len(),
{
    let t = s.push(c);
    assert(t.len() > 0);
    assert(utf8_len(t) == utf8_width(t[0]) + utf8_len(t.drop_first()));
    assert(utf16_len(t) == utf16_width(t[0]) + utf16_len(t.drop_first()));
    if s.len() > 0 {
        assert(t.drop_first() =~= s.drop_first().push(c));
        assert(t[0] == s[0]);
        lemma_len_push(s.drop_first(), c);
    } else {
        assert(t.drop_first() =~= Seq::<char>::empty());
        assert(t[0] == c);
    }
}

proof fn lemma_offset_step(s: Seq<char>, k: int)
    requires
        0 <= k < s.len(),
    ensures
        byte_offset(s, k + 1) == byte_offset(s, k) + utf8_width(s[k]),
        utf16_offset(s, k + 1) == utf16_offset(s, k) + utf16_width(s[k]),
{
    assert(s.take(k + 1) =~= s.take(k).push(s[k]));
    lemma_len_push(s.take(k), s[k]);
}

proof fn lemma_offsets_bounded(s: Seq<char>, k: int)
    requires
        0 <= k <= s.len(),
    ensures
        0 <= utf16_offset(s, k) <= byte_offset(s, k) <= byte_offset(s, s.len() as int),
    decreases s.len() - k,
{
    if k < s.len() {
        lemma_offset_step(s, k);
        lemma_offsets_bounded(s, k + 1);
        lemma_nonneg(s.take(k));
    } else {
        assert(s.take(k) =~= s.take(s.len() as int));
        lemma_nonneg(s.take(k));
    }
}

proof fn lemma_nonneg(s: Seq<char>)
    ensures
        0 <= utf16_len(s) <= utf8_len(s),
    decreases s.len(),
{
    if s.len() > 0 {
        lemma_nonneg(s.drop_first());
    }
}

proof fn lemma_encoded_len(s: Seq<char>)
    ensures
        encode_utf8(s).len() == utf8_len(s),
    decreases s.len(),
{
    if s.len() > 0 {
        vstd::utf8::char_is_scalar(s[0]);
        lemma_encoded_len(s.drop_first());
    }
}

/// Which kind of input a [`StringBox`] was made from.
#[derive(Debug, Clone)]
pub enum StringBoxOrigin {
    /// Raw bytes, one character each.
    Byte(Vec<u8>),
    /// Text that was already UTF-8.
    String,
    /// 32-bit code units.
    Wide(U32String),
}

/// The kind of a [`StringBoxOrigin`], without its data.
#[derive(Debug, Clone, Copy, PartialEq, Eq, Structural)]
pub enum StringBoxOriginType {
    Byte,
    UTF8,
    Wide,
}

impl StringBoxOrigin {
    pub open spec fn kind(&self) -> StringBoxOriginType {
        match self {
            StringBoxOrigin::Byte(_) => StringBoxOriginType::Byte,
            StringBoxOrigin::String => StringBoxOriginType::UTF8,
            StringBoxOrigin::Wide(_) => StringBoxOriginType::Wide,
        }
    }
}

impl From<StringBoxOrigin> for StringBoxOriginType {
    fn from(origin: StringBoxOrigin) -> (r: StringBoxOriginType) {
        match origin {
            StringBoxOrigin::Byte(_) => StringBoxOriginType::Byte,
            StringBoxOrigin::String => StringBoxOriginType::UTF8,
            StringBoxOrigin::Wide(_) => StringBoxOriginType::Wide,
        }
    }
}

impl vstd::std_specs::convert::FromSpecImpl<StringBoxOrigin> for StringBoxOriginType {
    open spec fn obeys_from_spec() -> bool {
        true
    }

    open spec fn from_spec(origin: StringBoxOrigin) -> StringBoxOriginType {
        origin.kind()
    }
}

/// A text value together with the input it was made from; all queries go by the text.
#[derive(Debug, Clone)]
pub struct StringBox {
    origin: StringBoxOrigin,
    string: String,
}

impl View for StringBox {
    type V = Seq<char>;

    closed spec fn view(&self) -> Seq<char> {
        self.string@
    }
}

impl StringBox {
    pub closed spec fn origin_kind(&self) -> StringBoxOriginType {
        self.origin.kind()
    }

    /// An empty text.
    pub fn new() -> (r: Self)
        ensures
            r@ == Seq::<char>::empty(),
            r.origin_kind() == StringBoxOriginType::UTF8,
    {
        Self::from_string(String::new())
    }

    /// Takes over a text.
    pub fn from_string(string: String) -> (r: Self)
        ensures
            r@ == string@,
            r.origin_kind() == StringBoxOriginType::UTF8,
    {
        StringBox { origin: StringBoxOrigin::String, string }
    }

    /// Decodes 32-bit code units, one character each; a unit that is not a Unicode scalar value
    /// becomes the replacement character.
    pub fn from_wide_string(data: Vec<u32>) -> (r: Self)
        ensures
            r@.len() == data@.len(),
            forall|i: int| 0 <= i < data@.len() ==> decodes_to(data@[i], #[trigger] r@[i]),
            r.origin_kind() == StringBoxOriginType::Wide,
    {
        let wide_string = wide_from_vec(data);
        let string = wide_to_string_lossy(&wide_string);
        StringBox { origin: StringBoxOrigin::Wide(wide_string), string }
    }

    /// Reads each byte as one character (the code point with that value).
    pub fn from_byte_string(data: Vec<u8>) -> (r: Self)
        ensures
            r@.len() == data@.len(),
            forall|i: int| 0 <= i < data@.len() ==> #[trigger] r@[i] as u32 == data@[i] as u32,
            r.origin_kind() == StringBoxOriginType::Byte,
    {
        let mut chars: Vec<char> = Vec::new();
        let mut i: usize = 0;
        while i < data.len()
            invariant
                i <= data@.len(),
                chars@.len() == i,
                forall|j: int| 0 <= j < i ==> #[trigger] chars@[j] as u32 == data@[j] as u32,
            decreases data@.len() - i,
        {
            chars.push(data[i] as char);
            i = i + 1;
        }
        let string = string_from_chars(&chars);
        StringBox { origin: StringBoxOrigin::Byte(data), string }
    }

    /// Decodes UTF-8 bytes that end in a zero terminator, which is not part of the text;
    /// malformed sequences are replaced.
    pub fn from_utf8_string(data: &[u8]) -> (r: Self)
        requires
            data@.len() >= 1,
            data@.last() == 0,
        ensures
            r@ == utf8_lossy_of(data@.drop_last()),
            valid_utf8(data@.drop_last()) ==> r@ == decode_utf8(data@.drop_last()),
            r.origin_kind() == StringBoxOriginType::UTF8,
    {
        let length = data.len() - 1;
        let text = slice_prefix(data, length);
        assert(text@ == data@.drop_last());
        let string = utf8_lossy(text);
        StringBox { origin: StringBoxOrigin::String, string }
    }

    /// Holds `string` from now on.
    pub fn set_string(&mut self, string: String)
        ensures
            final(self)@ == string@,
            final(self).origin_kind() == StringBoxOriginType::UTF8,
    {
        self.origin = StringBoxOrigin::String;
        self.string = string;
    }

    /// The length of the text in bytes.
    pub fn len(&self) -> (r: usize)
        ensures
            r == utf8_len(self@),
    {
        proof {
            lemma_encoded_len(self@);
        }
        let bytes = self.string.as_str().as_bytes();
        bytes.len()
    }

    /// The number of characters.
    pub fn char_count(&self) -> (r: usize)
        ensures
            r == self@.len(),
    {
        chars_of(self.string.as_str()).len()
    }

    /// A copy of the text.
    pub fn to_string(&self) -> (r: String)
        ensures
            r@ == self@,
    {
        self.string.clone()
    }

    pub fn as_str(&self) -> (r: &str)
        ensures
            r@ == self@,
    {
        self.string.as_str()
    }

    /// The UTF-8 bytes of the text.
    pub fn as_bytes(&self) -> (r: &[u8])
        ensures
            r@ == encode_utf8(self@),
    {
        self.string.as_str().as_bytes()
    }

    pub fn origin_type(&self) -> (r: StringBoxOriginType)
        ensures
            r == self.origin_kind(),
    {
        match &self.origin {
            StringBoxOrigin::Byte(_) => StringBoxOriginType::Byte,
            StringBoxOrigin::String => StringBoxOriginType::UTF8,
            StringBoxOrigin::Wide(_) => StringBoxOriginType::Wide,
        }
    }

    /// The byte span of character `index`; past the last character, the empty span at the end.
    pub fn char_index_to_byte_range(&self, index: usize) -> (r: Range<usize>)
        ensures
            index < self@.len() ==> r.start == byte_offset(self@, index as int) && r.end
                == byte_offset(self@, index + 1),
            index >= self@.len() ==> r.start == utf8_len(self@) && r.end == utf8_len(self@),
    {
        let chars = chars_of(self.string.as_str());
        let total = self.len();
        let count = chars.len();
        let ghost s = self@;
        let mut k: usize = 0;
        let mut offset: usize = 0;
        proof {
            assert(s.take(0) =~= Seq::<char>::empty());
            assert(s.take(s.len() as int) =~= s);
        }
        while k < count && k < index
            invariant
                s == self@,
                chars@ == s,
                count == s.len(),
                total == utf8_len(s),
                k <= count,
                k <= index,
                offset == byte_offset(s, k as int),
                utf8_len(s) == byte_offset(s, s.len() as int),
            decreases count - k,
        {
            proof {
                lemma_offset_step(s, k as int);
                lemma_offsets_bounded(s, k as int + 1);
            }
            offset = offset + char_utf8_width(chars[k]);
            k = k + 1;
        }
        if k < count {
            proof {
                lemma_offset_step(s, k as int);
                lemma_offsets_bounded(s, k as int + 1);
            }
            let end = offset + char_utf8_width(chars[k]);
            offset..end
        } else {
            total..total
        }
    }

    /// The span of character `index` in UTF-16 code units; past the last character, the empty
    /// span at the end.
    pub fn char_index_to_utf16_range(&self, index: usize) -> (r: Range<usize>)
        ensures
            index < self@.len() ==> r.start == utf16_offset(self@, index as int) && r.end
                == utf16_offset(self@, index + 1),
            index >= self@.len() ==> r.start == utf16_len(self@) && r.end == utf16_len(self@),
    {
        let chars = chars_of(self.string.as_str());
        let total = self.len();
        let count = chars.len();
        let ghost s = self@;
        let mut k: usize = 0;
        let mut offset: usize = 0;
        proof {
            assert(s.take(0) =~= Seq::<char>::empty());
            assert(s.take(s.len() as int) =~= s);
        }
        while k < count
            invariant
                s == self@,
                chars@ == s,
                count == s.len(),
                total == utf8_len(s),
                k <= count,
                offset == utf16_offset(s, k as int),
                utf8_len(s) == byte_offset(s, s.len() as int),
                utf16_len(s) == utf16_offset(s, s.len() as int),
                index < count ==> k <= index,
            decreases count - k,
        {
            proof {
                lemma_offset_step(s, k as int);
                lemma_offsets_bounded(s, k as int + 1);
            }
            let end = offset + char_utf16_width(chars[k]);
            if k == index {
                return offset..end;
            }
            offset = end;
            k = k + 1;
        }
        offset..offset
    }

    /// The first character index whose UTF-16 offset reaches `position`, or the character
    /// count when none does.
    pub fn utf16_position_to_char_index(&self, position: usize) -> (r: usize)
        ensures
            r <= self@.len(),
            forall|j: int| 0 <= j < r ==> utf16_offset(self@, j) < position,
            r < self@.len() ==> utf16_offset(self@, r as int) >= position,
    {
        let chars = chars_of(self.string.as_str());
        let total = self.len();
        let count = chars.len();
        let ghost s = self@;
        let mut k: usize = 0;
        let mut offset: usize = 0;
        proof {
            assert(s.take(0) =~= Seq::<char>::empty());
            assert(s.take(s.len() as int) =~= s);
        }
        while k < count
            invariant
                s == self@,
                chars@ == s,
                count == s.len(),
                total == utf8_len(s),
                k <= count,
                offset == utf16_offset(s, k as int),
                utf8_len(s) == byte_offset(s, s.len() as int),
                forall|j: int| 0 <= j < k ==> utf16_offset(s, j) < position,
            decreases count - k,
        {
            if offset >= position {
                return k;
            }
            proof {
                lemma_offset_step(s, k as int);
                lemma_offsets_bounded(s, k as int + 1);
            }
            offset = offset + char_utf16_width(chars[k]);
            k = k + 1;
        }
        k
    }
}

/// The number of bytes that `c` takes in UTF-8.
fn char_utf8_width(c: char) -> (r: usize)
    ensures
        r == utf8_width(c),
{
    let v = c as u32;
    if v <= 0x7F {
        1
    } else if v <= 0x7FF {
        2
    } else if v <= 0xFFFF {
        3
    } else {
        4
    }
}

/// The number of UTF-16 code units that `c` takes.
fn char_utf16_width(c: char) -> (r: usize)
    ensures
        r == utf16_width(c),
{
    if c as u32 <= 0xFFFF {
        1
    } else {
        2
    }
}

/// The first `length` elements of `s`.
fn slice_prefix(s: &[u8], length: usize) -> (r: &[u8])
    requires
        length <= s@.len(),
    ensures
        r@ == s@.take(length as int),
{
    vstd::slice::slice_subrange(s, 0, length)
}

} // verus!
