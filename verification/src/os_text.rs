//! Text as the operating system holds it.

use vstd::prelude::*;
use vstd::utf8;

verus! {

/// A path or an environment value as the operating system holds it: a string of
/// bytes, mostly but not always UTF-8.
#[derive(Debug, PartialEq, Eq)]
pub struct OsText {
    /// The bytes, in the encoding that Rust's `OsStr` uses for them.
    pub bytes: Vec<u8>,
}

impl View for OsText {
    type V = Seq<u8>;

    open spec fn view(&self) -> Seq<u8> {
        self.bytes@
    }
}

impl DeepView for OsText {
    type V = Seq<u8>;

    open spec fn deep_view(&self) -> Seq<u8> {
        self@
    }
}

impl Clone for OsText {
    fn clone(&self) -> (r: OsText)
        ensures
            r@ == self@,
    {
        let bytes = self.bytes.clone();
        assert(bytes@ =~= self.bytes@);
        OsText { bytes }
    }
}

impl OsText {
    /// The given text.
    pub fn new(text: &str) -> (r: OsText)
        ensures
            r@ == utf8::encode_utf8(text@),
    {
        OsText { bytes: text.as_bytes_vec() }
    }

    /// The text to show to a reader; what is not text is replaced. On Windows the
    /// bytes are UTF-8 in which a lone surrogate may stand as a character, and each of
    /// these is replaced as one; elsewhere they are any bytes at all.
    pub fn display(&self, windows: bool) -> (r: String)
        ensures
            r@ == shown(self@, windows),
    {
        if windows {
            decode_lossy(&replace_surrogates(&self.bytes))
        } else {
            decode_lossy(&self.bytes)
        }
    }
}

/// The same texts once more.
pub(crate) fn clone_list(list: &Vec<OsText>) -> (r: Vec<OsText>)
    ensures
        r.deep_view() == list.deep_view(),
{
    let mut r: Vec<OsText> = Vec::new();
    for i in 0..list.len()
        invariant
            r@.len() == i,
            forall|j: int| 0 <= j < i ==> #[trigger] r@[j]@ == list@[j]@,
    {
        r.push(list[i].clone());
    }
    assert(r.deep_view() =~= list.deep_view());
    r
}

/// The text of the bytes: what they encode, if they are UTF-8.
pub open spec fn text_of(bytes: Seq<u8>) -> Seq<char> {
    if utf8::valid_utf8(bytes) {
        utf8::decode_utf8(bytes)
    } else {
        lossy_text(bytes)
    }
}

/// Whether the bytes begin with a surrogate, encoded as a character is.
pub open spec fn surrogate_first(bytes: Seq<u8>) -> bool {
    &&& bytes.len() >= 3
    &&& bytes[0] == 0xed
    &&& 0xa0 <= bytes[1] <= 0xbf
    &&& 0x80 <= bytes[2] <= 0xbf
}

/// The bytes with U+FFFD in place of each surrogate.
pub open spec fn without_surrogates(bytes: Seq<u8>) -> Seq<u8>
    decreases bytes.len(),
{
    if bytes.len() == 0 {
        Seq::empty()
    } else if surrogate_first(bytes) {
        seq![0xefu8, 0xbf, 0xbd] + without_surrogates(bytes.skip(3))
    } else {
        seq![bytes[0]] + without_surrogates(bytes.skip(1))
    }
}

/// The text to show for the bytes.
pub open spec fn shown(bytes: Seq<u8>, windows: bool) -> Seq<char> {
    if windows {
        text_of(without_surrogates(bytes))
    } else {
        text_of(bytes)
    }
}

/// The bytes with U+FFFD in place of each surrogate.
fn replace_surrogates(bytes: &Vec<u8>) -> (r: Vec<u8>)
    ensures
        r@ == without_surrogates(bytes@),
{
    let n: usize = bytes.len();
    let mut r: Vec<u8> = Vec::new();
    let mut i: usize = 0;
    assert(bytes@.skip(0) =~= bytes@);
    while i < n
        invariant
            n == bytes@.len(),
            i <= n,
            r@ + without_surrogates(bytes@.skip(i as int)) == without_surrogates(bytes@),
        decreases n - i,
    {
        let ghost rest = bytes@.skip(i as int);
        let ghost before = r@;
        if n - i >= 3 && bytes[i] == 0xed && 0xa0 <= bytes[i + 1] && bytes[i + 1] <= 0xbf && 0x80
            <= bytes[i + 2] && bytes[i + 2] <= 0xbf {
            r.push(0xef);
            r.push(0xbf);
            r.push(0xbd);
            assert(rest.skip(3) =~= bytes@.skip(i + 3));
            assert(r@ =~= before + seq![0xefu8, 0xbf, 0xbd]);
            i = i + 3;
        } else {
            r.push(bytes[i]);
            assert(rest.skip(1) =~= bytes@.skip(i + 1));
            assert(r@ =~= before + seq![rest[0]]);
            i = i + 1;
        }
        assert(r@ + without_surrogates(bytes@.skip(i as int)) =~= before + without_surrogates(
            rest,
        ));
    }
    assert(r@ + without_surrogates(bytes@.skip(n as int)) =~= r@);
    r
}

/// The bytes of a surrogate, taken for a character, have a surrogate code point.
proof fn lemma_surrogate_code_point(second: u8, third: u8)
    by (bit_vector)
    requires
        0xa0 <= second <= 0xbf,
        0x80 <= third <= 0xbf,
    ensures
        0xd800 <= (((0xedu8 & 0x0f) as u32) << 12) | (((second & 0x3f) as u32) << 6) | ((third
            & 0x3f) as u32) <= 0xdfff,
{
}

/// There is no surrogate in UTF-8, so that nothing in it is replaced.
pub proof fn law_utf_8_has_no_surrogates(bytes: Seq<u8>)
    requires
        utf8::valid_utf8(bytes),
    ensures
        without_surrogates(bytes) == bytes,
    decreases bytes.len(),
{
    if bytes.len() > 0 {
        let width = utf8::length_of_first_scalar(bytes);
        if surrogate_first(bytes) {
            lemma_surrogate_code_point(bytes[1], bytes[2]);
        }
        let rest = utf8::pop_first_scalar(bytes);
        law_utf_8_has_no_surrogates(rest);
        reveal_with_fuel(without_surrogates, 5);
        let one = bytes.skip(1);
        let two = one.skip(1);
        let three = two.skip(1);
        let four = three.skip(1);
        if width == 1 {
            assert(rest =~= one);
        } else if width == 2 {
            assert(rest =~= two);
        } else if width == 3 {
            assert(rest =~= three);
        } else {
            assert(rest =~= four);
        }
        assert(without_surrogates(bytes) =~= bytes);
    } else {
        assert(bytes =~= Seq::<u8>::empty());
    }
}

/// Elsewhere than on Windows bytes that are not UTF-8 are shown as
/// `String::from_utf8_lossy` has them. On Windows they are shown as bytes without
/// surrogates are shown elsewhere.
pub proof fn law_what_is_not_utf_8_is_shown(bytes: Seq<u8>)
    ensures
        utf8::valid_utf8(bytes) ==> shown(bytes, false) == utf8::decode_utf8(bytes),
        !utf8::valid_utf8(bytes) ==> shown(bytes, false) == lossy_text(bytes),
        shown(bytes, true) == shown(without_surrogates(bytes), false),
{
}

/// Three bytes that encode a surrogate become the three bytes that encode U+FFFD, and
/// any other byte stays, wherever they stand.
pub proof fn law_surrogates_are_replaced_one_by_one(bytes: Seq<u8>)
    ensures
        bytes.len() == 0 ==> without_surrogates(bytes) == bytes,
        bytes.len() >= 3 && bytes[0] == 0xed && 0xa0 <= bytes[1] <= 0xbf && 0x80 <= bytes[2]
            <= 0xbf ==> without_surrogates(bytes) == seq![0xefu8, 0xbf, 0xbd]
            + without_surrogates(bytes.skip(3)),
        bytes.len() > 0 && !(bytes.len() >= 3 && bytes[0] == 0xed && 0xa0 <= bytes[1] <= 0xbf && 0x80
            <= bytes[2] <= 0xbf) ==> without_surrogates(bytes) == seq![bytes[0]]
            + without_surrogates(bytes.skip(1)),
{
    if bytes.len() == 0 {
        assert(without_surrogates(bytes) =~= bytes);
    }
}

/// Text that was given as such is shown as it was given, on every platform.
pub proof fn law_text_is_shown_as_given(text: Seq<char>, windows: bool)
    ensures
        shown(utf8::encode_utf8(text), windows) == text,
{
    utf8::encode_utf8_valid_utf8(text);
    utf8::encode_utf8_decode_utf8(text);
    law_utf_8_has_no_surrogates(utf8::encode_utf8(text));
}

/// The text that `String::from_utf8_lossy` makes of the bytes.
pub uninterp spec fn lossy_text(bytes: Seq<u8>) -> Seq<char>;

/// `String::from_utf8_lossy`: the text of the bytes, each malformed part replaced by
/// U+FFFD. Claimed of it: the result depends on the bytes alone, and bytes that are
/// valid UTF-8 give the text that they encode.
#[verifier::external_body]
fn decode_lossy(bytes: &Vec<u8>) -> (r: String)
    ensures
        utf8::valid_utf8(bytes@) ==> r@ == utf8::decode_utf8(bytes@),
        !utf8::valid_utf8(bytes@) ==> r@ == lossy_text(bytes@),
{
    String::from_utf8_lossy(bytes).into_owned()
}

/// Whether `name` is the plain name of a file: no separator, no prefix, no leading
/// dot.
pub open spec fn is_file_name(name: Seq<char>) -> bool {
    &&& name.len() > 0
    &&& name[0] != '.'
    &&& !name.contains('/')
    &&& !name.contains('\\')
    &&& !name.contains(':')
}

/// Whether `root` begins with the verbatim prefix of Windows.
pub open spec fn is_verbatim(root: Seq<char>) -> bool {
    &&& root.len() >= 4
    &&& root[0] == '\\'
    &&& root[1] == '\\'
    &&& root[2] == '?'
    &&& root[3] == '\\'
}

/// Whether `path` is `root` with `name` adjoined to it. The path ends in the name. A root
/// without a verbatim prefix stands unchanged in front, with nothing between the two
/// where it is empty or ends in a slash, and with one separator between them where it
/// ends in nothing like one.
pub open spec fn is_adjoined(path: Seq<char>, root: Seq<char>, name: Seq<char>) -> bool {
    let bare = path == root + name;
    let separated = path == root.push('/') + name || path == root.push('\\') + name;
    &&& name.is_suffix_of(path)
    &&& !is_verbatim(root) ==> if root.len() == 0 || root.last() == '/' {
        bare
    } else if root.last() == '\\' || root.last() == ':' {
        bare || separated
    } else {
        separated
    }
}

/// `std::path::Path::join`: the path of the file `name` in the directory `root`. Claimed
/// of it, for a plain file name: the name is adjoined to the root. Which separator stands
/// between them, and whether a backslash or the colon of a drive already serves as one,
/// is the platform's; and on Windows a root with a verbatim prefix is normalized. Of
/// either no more is claimed.
#[verifier::external_body]
pub(crate) fn join_path(root: &str, name: &str) -> (r: String)
    ensures
        is_file_name(name@) ==> is_adjoined(r@, root@, name@),
{
    std::path::Path::new(root).join(name).display().to_string()
}

/// Whether the platform can spell the file `name` in the directory `root` as `path`.
/// Nothing but the platform makes this known.
pub closed spec fn platform_joins(root: Seq<char>, name: Seq<char>, path: Seq<char>) -> bool {
    exists|r: &str, n: &str, p: String| #[trigger]
        call_ensures(join_path, (r, n), p) && r@ == root && n@ == name && p@ == path
}

/// What [`platform_joins`] speaks of is what [`join_path`] comes back with, and only for
/// the same root and name.
proof fn law_joined_by_the_platform(root: Seq<char>, name: Seq<char>, path: Seq<char>)
    ensures
        platform_joins(root, name, path) <==> exists|r: &str, n: &str, p: String| #[trigger]
            call_ensures(join_path, (r, n), p) && r@ == root && n@ == name && p@ == path,
{
}

/// Let `join` spell the file `name` in the directory `root`.
fn spell_with<F: Fn(&str, &str) -> String>(join: F, root: &str, name: &str) -> (r: String)
    requires
        call_requires(join, (root, name)),
    ensures
        call_ensures(join, (root, name), r),
{
    join(root, name)
}

/// The path of the file `name` in the directory `root`, as the platform spells it.
pub(crate) fn spelled_path(root: &str, name: &str) -> (r: String)
    ensures
        is_file_name(name@) ==> is_adjoined(r@, root@, name@),
        platform_joins(root@, name@, r@),
{
    let r = spell_with(join_path, root, name);
    proof {
        law_joined_by_the_platform(root@, name@, r@);
    }
    r
}

} // verus!
