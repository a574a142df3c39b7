//! Strings that can be handed to a core as C strings and read back as Rust
//! strings: valid UTF-8 with no NUL inside.

use vstd::prelude::*;
use vstd::slice::*;
use vstd::string::*;
use vstd::utf8::*;

verus! {

/// Errors on creating a portable string
#[derive(Clone, Copy, Debug, PartialEq, Eq, Structural)]
pub enum PStringError {
    Nul,
    Utf8,
}

impl PStringError {
    /// The text that describes the error.
    pub open spec fn text(self) -> Seq<char> {
        match self {
            PStringError::Nul => "nul byte in string"@,
            PStringError::Utf8 => "non-utf8 string"@,
        }
    }

    /// Renders the error as text.
    pub fn message(&self) -> (s: String)
        ensures
            s@ == self.text(),
    {
        match self {
            PStringError::Nul => String::from_str("nul byte in string"),
            PStringError::Utf8 => String::from_str("non-utf8 string"),
        }
    }
}

/// `needle` stands in `hay` at position `i`.
pub open spec fn occurs_at(hay: Seq<char>, needle: Seq<char>, i: int) -> bool {
    &&& 0 <= i
    &&& i + needle.len() <= hay.len()
    &&& hay.subrange(i, i + needle.len()) == needle
}

/// `i` is the first position at which `needle` stands in `hay`.
pub open spec fn first_occurrence(hay: Seq<char>, needle: Seq<char>, i: int) -> bool {
    &&& occurs_at(hay, needle, i)
    &&& forall|j: int| 0 <= j < i ==> !occurs_at(hay, needle, j)
}

/// The pieces of `s` between the occurrences of `c`, in order. There is
/// always at least one piece.
pub open spec fn split_on(s: Seq<char>, c: char) -> Seq<Seq<char>>
    decreases s.len(),
{
    match s.index_of_first(c) {
        Some(i) => if 0 <= i < s.len() {
            seq![s.subrange(0, i)] + split_on(s.subrange(i + 1, s.len() as int), c)
        } else {
            seq![s]
        },
        None => seq![s],
    }
}

/// The views of a list of string slices.
pub open spec fn str_views(v: Seq<&str>) -> Seq<Seq<char>> {
    Seq::new(v.len(), |i: int| v[i]@)
}

/// What `std::str::from_utf8` promises: it accepts exactly the valid
/// UTF-8 byte sequences, and the string it returns decodes the bytes.
pub assume_specification<'a>[ std::str::from_utf8 ](v: &'a [u8]) -> (r: Result<
    &'a str,
    std::str::Utf8Error,
>)
    ensures
        r is Ok <==> valid_utf8(v@),
        r matches Ok(s) ==> s@ == decode_utf8(v@),
;

/// The error of `std::str::from_utf8`, carried through and never read.
#[verifier::external_type_specification]
#[verifier::external_body]
pub struct ExUtf8Error(std::str::Utf8Error);

/// `str::split_once` with a string delimiter: the text before and after the
/// first occurrence of the delimiter, or `None` when it does not occur.
#[verifier::external_body]
fn str_split_once<'a>(s: &'a str, delimiter: &str) -> (r: Option<(&'a str, &'a str)>)
    ensures
        match r {
            Some((a, b)) => {
                &&& first_occurrence(s@, delimiter@, a@.len() as int)
                &&& a@ == s@.subrange(0, a@.len() as int)
                &&& b@ == s@.subrange((a@.len() + delimiter@.len()) as int, s@.len() as int)
            },
            None => forall|i: int| !occurs_at(s@, delimiter@, i),
        },
{
    s.split_once(delimiter)
}

/// `str::split` with a character pattern: the pieces between the
/// occurrences of the character, in order.
#[verifier::external_body]
pub(crate) fn str_split<'a>(s: &'a str, pattern: char) -> (r: Vec<&'a str>)
    ensures
        str_views(r@) == split_on(s@, pattern),
{
    s.split(pattern).collect()
}

/// A zero byte occurs in the UTF-8 encoding of a scalar exactly when the
/// scalar is zero.
proof fn lemma_scalar_nul(s: u32)
    requires
        is_scalar(s),
    ensures
        encode_scalar(s).contains(0u8) <==> s == 0,
{
    let e = encode_scalar(s);
    assert(has_width_1_encoding(s) ==> (leading_byte_width_1(s) == 0u8 <==> s == 0u32))
        by (bit_vector);
    assert(leading_byte_width_2(s) != 0u8) by (bit_vector);
    assert(leading_byte_width_3(s) != 0u8) by (bit_vector);
    assert(leading_byte_width_4(s) != 0u8) by (bit_vector);
    assert(last_continuation_byte(s) != 0u8) by (bit_vector);
    assert(second_last_continuation_byte(s) != 0u8) by (bit_vector);
    assert(third_last_continuation_byte(s) != 0u8) by (bit_vector);
    if e.contains(0u8) {
        let i = choose|i: int| 0 <= i < e.len() && e[i] == 0u8;
        assert(e[i] == 0u8);
    }
    if s == 0 {
        assert(e[0] == 0u8);
    }
}

/// A zero byte occurs in the UTF-8 encoding of a text exactly when the NUL
/// character occurs in the text.
pub proof fn lemma_nul_byte_iff_nul_char(chars: Seq<char>)
    ensures
        encode_utf8(chars).contains(0u8) <==> chars.contains('\0'),
    decreases chars.len(),
{
    if chars.len() > 0 {
        let head = encode_scalar(chars[0] as u32);
        let rest = chars.drop_first();
        let tail = encode_utf8(rest);
        let all = encode_utf8(chars);
        assert(all == head + tail);
        char_is_scalar(chars[0]);
        lemma_scalar_nul(chars[0] as u32);
        lemma_nul_byte_iff_nul_char(rest);
        assert(chars[0] as u32 == 0 <==> chars[0] == '\0') by {
            assert('\0' as u32 == 0);
            char_u32_cast('\0', 0u32);
            char_u32_cast(chars[0], chars[0] as u32);
        }
        if all.contains(0u8) {
            let i = choose|i: int| 0 <= i < all.len() && all[i] == 0u8;
            if i < head.len() {
                assert(head[i] == 0u8);
                assert(chars[0] == '\0');
            } else {
                assert(tail[i - head.len()] == 0u8);
                let j = choose|j: int| 0 <= j < rest.len() && rest[j] == '\0';
                assert(chars[j + 1] == '\0');
            }
        }
        if chars.contains('\0') {
            let j = choose|j: int| 0 <= j < chars.len() && chars[j] == '\0';
            if j == 0 {
                let i = choose|i: int| 0 <= i < head.len() && head[i] == 0u8;
                assert(all[i] == 0u8);
            } else {
                assert(rest[j - 1] == '\0');
                let i = choose|i: int| 0 <= i < tail.len() && tail[i] == 0u8;
                assert(all[i + head.len()] == 0u8);
            }
        }
    }
}


/// A borrowed text that holds no NUL character, so that it can be read as a
/// C string and as a Rust string alike.
pub struct PStr<'a> {
    // Kept as a string slice: a terminating NUL cannot be promised of it.
    inner: &'a str,
}

impl<'a> View for PStr<'a> {
    type V = Seq<char>;

    closed spec fn view(&self) -> Seq<char> {
        self.inner@
    }
}

impl<'a> PStr<'a> {
    #[verifier::type_invariant]
    closed spec fn inv(self) -> bool {
        !self.inner@.contains('\0')
    }

    /// Reads the bytes of a C string, terminator included, as a portable
    /// text: a NUL before the terminator is refused first, then bytes that
    /// are not UTF-8.
    pub fn from_bytes_with_nul(bytes: &'a [u8]) -> (r: Result<PStr<'a>, PStringError>)
        requires
            bytes@.len() > 0,
            bytes@.last() == 0u8,
        ensures
            r == Err::<PStr<'a>, PStringError>(PStringError::Nul) <==> bytes@.drop_last().contains(
                0u8,
            ),
            r == Err::<PStr<'a>, PStringError>(PStringError::Utf8) <==> !bytes@.drop_last().contains(
                0u8,
            ) && !valid_utf8(bytes@.drop_last()),
            r is Ok <==> !bytes@.drop_last().contains(0u8) && valid_utf8(bytes@.drop_last()),
            r matches Ok(p) ==> p@ == decode_utf8(bytes@.drop_last()) && !p@.contains('\0'),
    {
        match PString::check(bytes) {
            Ok(_) => {
                let content = slice_subrange(bytes, 0, bytes.len() - 1);
                assert(content@ == bytes@.drop_last());
                match std::str::from_utf8(content) {
                    Ok(s) => {
                        proof {
                            decode_utf8_encode_utf8(content@);
                            lemma_nul_byte_iff_nul_char(s@);
                        }
                        Ok(PStr { inner: s })
                    },
                    Err(_) => Err(PStringError::Utf8),
                }
            },
            Err(e) => Err(e),
        }
    }

    /// Takes a Rust string as a portable text, unless it holds a NUL.
    pub fn try_from_str(s: &'a str) -> (r: Result<PStr<'a>, PStringError>)
        ensures
            r is Ok <==> !s@.contains('\0'),
            r matches Ok(p) ==> p@ == s@,
            r matches Err(e) ==> e == PStringError::Nul,
    {
        let bytes = s.as_bytes();
        proof {
            lemma_nul_byte_iff_nul_char(s@);
        }
        if has_zero(bytes) {
            Err(PStringError::Nul)
        } else {
            Ok(PStr { inner: s })
        }
    }

    /// The text as a Rust string slice.
    pub fn as_str(&self) -> (s: &'a str)
        ensures
            s@ == self@,
            !s@.contains('\0'),
    {
        proof {
            use_type_invariant(self);
        }
        self.inner
    }

    /// An owned copy of the text.
    pub fn to_string(&self) -> (s: String)
        ensures
            s@ == self@,
    {
        String::from_str(self.inner)
    }

    /// The text before and after the first occurrence of `delimiter`, or
    /// `None` when the delimiter does not occur.
    pub fn split_once(&self, delimiter: &str) -> (r: Option<(PStr<'a>, PStr<'a>)>)
        ensures
            match r {
                Some((a, b)) => {
                    &&& first_occurrence(self@, delimiter@, a@.len() as int)
                    &&& a@ == self@.subrange(0, a@.len() as int)
                    &&& b@ == self@.subrange(
                        (a@.len() + delimiter@.len()) as int,
                        self@.len() as int,
                    )
                },
                None => forall|i: int| !occurs_at(self@, delimiter@, i),
            },
    {
        proof {
            use_type_invariant(self);
        }
        match str_split_once(self.inner, delimiter) {
            Some((a, b)) => {
                assert(!a@.contains('\0')) by {
                    if a@.contains('\0') {
                        let i = choose|i: int| 0 <= i < a@.len() && a@[i] == '\0';
                        assert(self.inner@[i] == '\0');
                    }
                }
                assert(!b@.contains('\0')) by {
                    if b@.contains('\0') {
                        let i = choose|i: int| 0 <= i < b@.len() && b@[i] == '\0';
                        assert(self.inner@[i + a@.len() + delimiter@.len()] == '\0');
                    }
                }
                Some((PStr { inner: a }, PStr { inner: b }))
            },
            None => None,
        }
    }

    /// The pieces of the text between the occurrences of `pattern`, as plain
    /// string slices. None of them holds a NUL.
    pub fn split(&self, pattern: char) -> (r: Vec<&'a str>)
        ensures
            str_views(r@) == split_on(self@, pattern),
            r@.len() > 0,
            forall|k: int| 0 <= k < r@.len() ==> !(#[trigger] r@[k])@.contains('\0'),
    {
        proof {
            use_type_invariant(self);
            lemma_split_on_keeps_out(self.inner@, pattern, '\0');
        }
        let r = str_split(self.inner, pattern);
        assert forall|k: int| 0 <= k < r@.len() implies !(#[trigger] r@[k])@.contains('\0') by {
            assert(str_views(r@)[k] == r@[k]@);
        }
        r
    }
}

/// Whether a zero byte occurs in the slice.
fn has_zero(bytes: &[u8]) -> (r: bool)
    ensures
        r == bytes@.contains(0u8),
{
    let mut i: usize = 0;
    while i < bytes.len()
        invariant
            i <= bytes@.len(),
            forall|j: int| 0 <= j < i ==> bytes@[j] != 0u8,
        decreases bytes@.len() - i,
    {
        if bytes[i] == 0 {
            return true;
        }
        i += 1;
    }
    false
}

/// Portable string that can be safely represented in C and Rust
pub struct PString {
    data: Vec<u8>,
}

impl View for PString {
    type V = Seq<char>;

    closed spec fn view(&self) -> Seq<char> {
        decode_utf8(self.data@.drop_last())
    }
}

impl PString {
    #[verifier::type_invariant]
    closed spec fn inv(self) -> bool {
        &&& self.data@.len() > 0
        &&& self.data@.last() == 0u8
        &&& !self.data@.drop_last().contains(0u8)
        &&& valid_utf8(self.data@.drop_last())
    }

    /// The bytes handed to a core: the UTF-8 encoding of the text and one
    /// terminating zero.
    pub closed spec fn c_bytes(&self) -> Seq<u8> {
        self.data@
    }

    /// Judges the bytes of a C string, terminator included: a NUL before
    /// the terminator is an error, and so are bytes that are not UTF-8.
    pub fn check(s: &[u8]) -> (r: Result<(), PStringError>)
        requires
            s@.len() > 0,
            s@.last() == 0u8,
        ensures
            r == Err::<(), PStringError>(PStringError::Nul) <==> s@.drop_last().contains(0u8),
            r == Err::<(), PStringError>(PStringError::Utf8) <==> !s@.drop_last().contains(0u8)
                && !valid_utf8(s@.drop_last()),
            r is Ok <==> !s@.drop_last().contains(0u8) && valid_utf8(s@.drop_last()),
    {
        // Ignore last zero for testing
        let string_slice = slice_subrange(s, 0, s.len() - 1);
        assert(string_slice@ == s@.drop_last());
        if has_zero(string_slice) {
            Err(PStringError::Nul)
        } else if std::str::from_utf8(string_slice).is_err() {
            Err(PStringError::Utf8)
        } else {
            Ok(())
        }
    }

    /// The empty text.
    pub fn empty() -> (r: PString)
        ensures
            r@ == Seq::<char>::empty(),
    {
        let mut data: Vec<u8> = Vec::new();
        data.push(0);
        assert(data@.drop_last() == Seq::<u8>::empty());
        assert(valid_utf8(data@.drop_last()));
        PString { data }
    }

    /// Takes the bytes of a C string, terminator included, as a portable
    /// string, or says why they are none.
    pub fn try_from(s: Vec<u8>) -> (r: Result<PString, PStringError>)
        requires
            s@.len() > 0,
            s@.last() == 0u8,
        ensures
            r matches Err(e) ==> (e == PStringError::Nul <==> s@.drop_last().contains(0u8)),
            r is Ok <==> !s@.drop_last().contains(0u8) && valid_utf8(s@.drop_last()),
            r matches Ok(p) ==> p@ == decode_utf8(s@.drop_last()) && p.c_bytes() == s@,
    {
        match Self::check(s.as_slice()) {
            Ok(_) => Ok(PString { data: s }),
            Err(e) => Err(e),
        }
    }

    /// Copies a Rust string into a portable string, unless it holds a NUL.
    pub fn from_str(s: &str) -> (r: Result<PString, PStringError>)
        ensures
            r is Ok <==> !s@.contains('\0'),
            r matches Ok(p) ==> p@ == s@,
            r matches Err(e) ==> e == PStringError::Nul,
    {
        let mut vec = s.as_bytes_vec();
        vec.push(0);
        proof {
            assert(vec@.drop_last() == encode_utf8(s@));
            lemma_nul_byte_iff_nul_char(s@);
            encode_utf8_valid_utf8(s@);
            encode_utf8_decode_utf8(s@);
        }
        Self::try_from(vec)
    }

    /// Copies a portable text into an owned portable string.
    pub fn from_pstr(s: &PStr) -> (r: PString)
        ensures
            r@ == s@,
    {
        let text = s.as_str();
        let mut data = text.as_bytes_vec();
        data.push(0);
        proof {
            assert(data@.drop_last() == encode_utf8(text@));
            lemma_nul_byte_iff_nul_char(text@);
            encode_utf8_valid_utf8(text@);
            encode_utf8_decode_utf8(text@);
        }
        PString { data }
    }

    /// The text as a Rust string slice.
    pub fn to_str(&self) -> (s: &str)
        ensures
            s@ == self@,
            !s@.contains('\0'),
    {
        proof {
            use_type_invariant(self);
        }
        let content = slice_subrange(self.data.as_slice(), 0, self.data.len() - 1);
        assert(content@ == self.data@.drop_last());
        match std::str::from_utf8(content) {
            Ok(s) => {
                proof {
                    decode_utf8_encode_utf8(content@);
                    lemma_nul_byte_iff_nul_char(s@);
                }
                s
            },
            Err(_) => {
                assert(false);
                ""
            },
        }
    }

    /// The text as an owned Rust string.
    pub fn into_string(self) -> (s: String)
        ensures
            s@ == self@,
    {
        String::from_str(self.to_str())
    }

    /// The bytes to hand to a core: the text in UTF-8, then one zero.
    pub fn as_bytes_with_nul(&self) -> (b: &[u8])
        ensures
            b@ == self.c_bytes(),
            b@.len() > 0,
            b@.last() == 0u8,
            !b@.drop_last().contains(0u8),
            b@.drop_last() == encode_utf8(self@),
    {
        proof {
            use_type_invariant(self);
            decode_utf8_encode_utf8(self.data@.drop_last());
        }
        self.data.as_slice()
    }

    /// Whether two portable strings hold the same text.
    pub fn equals(&self, other: &PString) -> (r: bool)
        ensures
            r == (self@ == other@),
    {
        let same = same_bytes(self.data.as_slice(), other.data.as_slice());
        proof {
            use_type_invariant(self);
            use_type_invariant(other);
            decode_utf8_encode_utf8(self.data@.drop_last());
            decode_utf8_encode_utf8(other.data@.drop_last());
            if self@ == other@ {
                assert(self.data@.drop_last() == other.data@.drop_last());
                assert(self.data@ =~= self.data@.drop_last().push(0u8));
                assert(other.data@ =~= other.data@.drop_last().push(0u8));
            }
        }
        same
    }
}

/// Whether two slices hold the same bytes.
pub(crate) fn same_bytes(a: &[u8], b: &[u8]) -> (r: bool)
    ensures
        r == (a@ == b@),
{
    if a.len() != b.len() {
        return false;
    }
    let mut i: usize = 0;
    while i < a.len()
        invariant
            i <= a@.len(),
            a@.len() == b@.len(),
            forall|j: int| 0 <= j < i ==> a@[j] == b@[j],
        decreases a@.len() - i,
    {
        if a[i] != b[i] {
            return false;
        }
        i += 1;
    }
    assert(a@ =~= b@);
    true
}

impl Clone for PString {
    fn clone(&self) -> (r: Self)
        ensures
            r@ == self@,
            r.c_bytes() == self.c_bytes(),
    {
        proof {
            use_type_invariant(self);
        }
        let data = self.data.clone();
        assert(data@ =~= self.data@);
        PString { data }
    }
}

/// Whether two string slices hold the same text.
pub fn str_eq(a: &str, b: &str) -> (r: bool)
    ensures
        r == (a@ == b@),
{
    proof {
        encode_utf8_decode_utf8(a@);
        encode_utf8_decode_utf8(b@);
    }
    same_bytes(a.as_bytes(), b.as_bytes())
}

/// Splitting a text gives at least one piece, and a character that is not
/// in the text is in none of the pieces.
pub proof fn lemma_split_on_keeps_out(s: Seq<char>, c: char, x: char)
    ensures
        split_on(s, c).len() > 0,
        !s.contains(x) ==> forall|k: int|
            0 <= k < split_on(s, c).len() ==> !(#[trigger] split_on(s, c)[k]).contains(x),
    decreases s.len(),
{
    s.index_of_first_ensures(c);
    if s.index_of_first(c) is Some {
        let i = s.index_of_first(c)->0;
        let head = s.subrange(0, i);
        let tail = s.subrange(i + 1, s.len() as int);
        lemma_split_on_keeps_out(tail, c, x);
        if !s.contains(x) {
            assert(!head.contains(x)) by {
                if head.contains(x) {
                    let j = choose|j: int| 0 <= j < head.len() && head[j] == x;
                    assert(s[j] == x);
                }
            }
            assert(!tail.contains(x)) by {
                if tail.contains(x) {
                    let j = choose|j: int| 0 <= j < tail.len() && tail[j] == x;
                    assert(s[j + i + 1] == x);
                }
            }
            assert forall|k: int| 0 <= k < split_on(s, c).len() implies !(#[trigger] split_on(
                s,
                c,
            )[k]).contains(x) by {
                if k > 0 {
                    assert(split_on(s, c)[k] == split_on(tail, c)[k - 1]);
                }
            }
        }
    }
}

} // verus!
