//! References to images: what form a reference has, and the data URL that
//! carries an image inline.

use vstd::prelude::*;

verus! {

/// The forms that a reference to an image can have.
#[derive(Debug)]
pub enum ImageSource {
    /// The path of a file that exists.
    File,
    /// An `http` or `https` URL.
    Remote,
    /// A data URL; this is its payload, the image in base64.
    Inline(String),
    /// None of these.
    Invalid,
}

/// What a form of reference holds.
pub enum ImageSourceView {
    File,
    Remote,
    Inline(Seq<char>),
    Invalid,
}

impl View for ImageSource {
    type V = ImageSourceView;

    open spec fn view(&self) -> ImageSourceView {
        match self {
            ImageSource::File => ImageSourceView::File,
            ImageSource::Remote => ImageSourceView::Remote,
            ImageSource::Inline(payload) => ImageSourceView::Inline(payload@),
            ImageSource::Invalid => ImageSourceView::Invalid,
        }
    }
}

/// Where, among the first `n` characters of `text`, the part after the
/// last `mark` begins: after that `mark`, or at 0 if there is none.
pub open spec fn start_after_last(text: Seq<char>, mark: char, n: int) -> int
    decreases n,
{
    if n <= 0 {
        0
    } else if text[n - 1] == mark {
        n
    } else {
        start_after_last(text, mark, n - 1)
    }
}

/// The part of `text` after its last `mark`; all of `text` if it has none.
pub open spec fn after_last(text: Seq<char>, mark: char) -> Seq<char> {
    text.subrange(start_after_last(text, mark, text.len() as int), text.len() as int)
}

/// The form of the reference `src`, where `exists` says whether `src` is
/// the path of a file that exists. Such a path is a file whatever it
/// looks like. Otherwise what begins with `http` is remote, what begins with
/// `data:image` is inline, with what follows its last comma as payload, and
/// anything else is invalid.
pub open spec fn form_of(src: Seq<char>, exists: bool) -> ImageSourceView {
    if exists {
        ImageSourceView::File
    } else if "http"@.is_prefix_of(src) {
        ImageSourceView::Remote
    } else if "data:image"@.is_prefix_of(src) {
        ImageSourceView::Inline(after_last(src, ','))
    } else {
        ImageSourceView::Invalid
    }
}

/// The data URL of a PNG image whose bytes are `encoded` in base64.
pub open spec fn png_data_url(encoded: Seq<char>) -> Seq<char> {
    "data:image/png;base64,"@ + encoded
}

/// Whether `text` begins with `prefix`.
pub fn starts_with(text: &str, prefix: &str) -> (r: bool)
    ensures
        r == prefix@.is_prefix_of(text@),
{
    let n = prefix.unicode_len();
    if text.unicode_len() < n {
        return false;
    }
    let mut i: usize = 0;
    while i < n
        invariant
            i <= n,
            n == prefix@.len(),
            n <= text@.len(),
            forall|j: int| 0 <= j < i ==> text@[j] == prefix@[j],
        decreases n - i,
    {
        if text.get_char(i) != prefix.get_char(i) {
            assert(text@.subrange(0, n as int)[i as int] != prefix@[i as int]);
            return false;
        }
        i += 1;
    }
    assert(text@.subrange(0, n as int) =~= prefix@);
    true
}

/// The part of `text` after its last `mark`; all of `text` if it has none.
pub fn part_after_last(text: &str, mark: char) -> (r: String)
    ensures
        r@ == after_last(text@, mark),
{
    let n = text.unicode_len();
    let mut start: usize = n;
    while start > 0 && text.get_char(start - 1) != mark
        invariant
            start <= n,
            n == text@.len(),
            start_after_last(text@, mark, n as int) == start_after_last(
                text@,
                mark,
                start as int,
            ),
        decreases start,
    {
        start -= 1;
    }
    text.substring_char(start, n).to_owned()
}

/// Tells the form of the reference `src`, where `exists` says whether
/// `src` is the path of a file that exists.
pub fn classify(src: &str, exists: bool) -> (r: ImageSource)
    ensures
        r@ == form_of(src@, exists),
{
    if exists {
        ImageSource::File
    } else if starts_with(src, "http") {
        ImageSource::Remote
    } else if starts_with(src, "data:image") {
        ImageSource::Inline(part_after_last(src, ','))
    } else {
        ImageSource::Invalid
    }
}

/// Writes the data URL of a PNG image whose bytes are `encoded` in base64.
pub fn data_url(encoded: &str) -> (r: String)
    ensures
        r@ == png_data_url(encoded@),
{
    let mut r = "data:image/png;base64,".to_owned();
    r.append(encoded);
    r
}

/// The part after the last `mark` holds no `mark`, and `text` is what
/// comes before it followed by it.
pub proof fn after_last_is_the_last_part(text: Seq<char>, mark: char)
    ensures
        !after_last(text, mark).contains(mark),
        0 <= start_after_last(text, mark, text.len() as int) <= text.len(),
        text == text.take(start_after_last(text, mark, text.len() as int)) + after_last(
            text,
            mark,
        ),
        start_after_last(text, mark, text.len() as int) > 0 ==> text[start_after_last(
            text,
            mark,
            text.len() as int,
        ) - 1] == mark,
{
    lemma_start_after_last(text, mark, text.len() as int);
    let start = start_after_last(text, mark, text.len() as int);
    assert(text =~= text.take(start) + after_last(text, mark));
    if after_last(text, mark).contains(mark) {
        let k = choose|k: int|
            0 <= k < after_last(text, mark).len() && after_last(text, mark)[k] == mark;
        assert(text[start + k] == mark);
    }
}

/// The start of the part after the last `mark` among the first `n`
/// characters: no `mark` stands between it and `n`, and a `mark` stands
/// before it unless it is 0.
proof fn lemma_start_after_last(text: Seq<char>, mark: char, n: int)
    requires
        0 <= n <= text.len(),
    ensures
        0 <= start_after_last(text, mark, n) <= n,
        forall|j: int| start_after_last(text, mark, n) <= j < n ==> text[j] != mark,
        start_after_last(text, mark, n) > 0 ==> text[start_after_last(text, mark, n) - 1] == mark,
    decreases n,
{
    if n > 0 && text[n - 1] != mark {
        lemma_start_after_last(text, mark, n - 1);
    }
}

/// An image that is carried inline is found again: the data URL of an
/// encoding without a comma is an inline reference whose payload is that
/// encoding.
pub proof fn data_url_is_inline(encoded: Seq<char>)
    requires
        !encoded.contains(','),
    ensures
        form_of(png_data_url(encoded), false) == ImageSourceView::Inline(encoded),
{
    reveal_strlit("data:image/png;base64,");
    reveal_strlit("data:image");
    reveal_strlit("http");
    let url = png_data_url(encoded);
    let head = "data:image/png;base64,"@;
    assert(head.len() == 22);
    assert("data:image"@.len() == 10);
    assert("http"@.len() == 4);
    assert(url[0] == 'd');
    assert("http"@[0] == 'h');
    assert(!"http"@.is_prefix_of(url)) by {
        if "http"@.is_prefix_of(url) {
            assert(url.subrange(0, 4)[0] == "http"@[0]);
        }
    }
    assert(url.subrange(0, 10) =~= "data:image"@);
    lemma_start_after_last(url, ',', url.len() as int);
    let start = start_after_last(url, ',', url.len() as int);
    assert(url[21] == ',');
    assert(start == 22) by {
        if start < 22 {
            assert(url[21] != ',');
        } else if start > 22 {
            assert(url[start - 1] == encoded[start - 1 - 22]);
            assert(encoded.contains(','));
        }
    }
    assert(after_last(url, ',') =~= encoded);
}

} // verus!
