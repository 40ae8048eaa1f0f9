//! Cover art: its base64 form, the file that an art URL names, and the one
//! remembered cover that spares a player's art from being read on every poll.

use crate::text;
use base64::engine::general_purpose::STANDARD;
use base64::Engine;
use vstd::prelude::*;
use vstd::string::*;

verus! {

/// The standard base64 text of a sequence of bytes, padded, as the `base64`
/// crate's `STANDARD` engine writes it.
pub uninterp spec fn base64_standard(bytes: Seq<u8>) -> Seq<char>;

/// Whether the base64 text of so many bytes fits in memory.
pub open spec fn encodable(len: nat) -> bool {
    4 * ((len + 2) / 3) <= isize::MAX
}

/// `Engine::encode` of the `base64` crate, on its `STANDARD` engine: the padded
/// base64 text of `bytes` in the alphabet of RFC 4648, four characters for
/// every three bytes begun. It panics where that text would not fit in memory,
/// which `requires` leaves out.
#[verifier::external_body]
fn encode_standard(bytes: &Vec<u8>) -> (text: String)
    requires
        encodable(bytes@.len()),
    ensures
        text@ == base64_standard(bytes@),
        text@.len() == 4 * ((bytes@.len() + 2) / 3),
{
    STANDARD.encode(bytes)
}

/// The base64 text of a cover, unless the text would not fit in memory.
pub fn encode_cover(bytes: &Vec<u8>) -> (text: Option<String>)
    ensures
        text is Some == encodable(bytes@.len()),
        text matches Some(encoded) ==> {
            &&& encoded@ == base64_standard(bytes@)
            &&& encoded@.len() == 4 * ((bytes@.len() + 2) / 3)
        },
{
    if bytes.len() <= (isize::MAX as usize) / 4 * 3 {
        Some(encode_standard(bytes))
    } else {
        None
    }
}

/// The scheme that an art URL must have.
pub open spec fn file_scheme() -> Seq<char> {
    "file://"@
}

/// The path of the file that an art URL names: what follows `file://`. A URL
/// of another scheme, the empty one too, names no file.
pub open spec fn cover_path_spec(art_url: Seq<char>) -> Option<Seq<char>> {
    if file_scheme().is_prefix_of(art_url) {
        Some(art_url.skip(file_scheme().len() as int))
    } else {
        None
    }
}

/// The path of the file that an art URL names.
pub fn cover_path(art_url: &str) -> (path: Option<String>)
    ensures
        match path {
            Some(found) => cover_path_spec(art_url@) == Some(found@),
            None => cover_path_spec(art_url@) is None,
        },
{
    match text::strip_prefix(art_url, "file://") {
        Some(rest) => Some(rest.to_owned()),
        None => None,
    }
}

/// What a `CoverCache` holds, as mathematical values.
pub struct CoverCacheView {
    /// The source of the remembered cover.
    pub source: Option<Seq<char>>,
    /// The bytes read from the source, unless reading failed.
    pub raw: Option<Seq<u8>>,
    /// The base64 text of those bytes.
    pub b64: Option<Seq<char>>,
}

impl CoverCacheView {
    /// The cache that remembers nothing.
    pub open spec fn empty() -> CoverCacheView {
        CoverCacheView { source: None, raw: None, b64: None }
    }

    /// Whether the remembered cover came from `source`.
    pub open spec fn holds(self, source: Seq<char>) -> bool {
        self.source == Some(source)
    }

    /// The cache after `source` was read, with `bytes` where reading gave a
    /// cover that can be encoded. Whatever was remembered before is gone.
    pub open spec fn remember(self, source: Seq<char>, bytes: Option<Seq<u8>>) -> CoverCacheView {
        match bytes {
            Some(read) if encodable(read.len()) => CoverCacheView {
                source: Some(source),
                raw: Some(read),
                b64: Some(base64_standard(read)),
            },
            _ => CoverCacheView { source: Some(source), raw: None, b64: None },
        }
    }

    /// Whether the base64 text is that of the bytes, and nothing is held
    /// without a source.
    pub open spec fn consistent(self) -> bool {
        &&& self.source is None ==> self.raw is None
        &&& self.raw is Some <==> self.b64 is Some
        &&& self.raw matches Some(read) ==> self.b64 == Some(base64_standard(read))
    }
}

/// The view of bytes that may be absent.
pub open spec fn bytes_view(bytes: Option<Vec<u8>>) -> Option<Seq<u8>> {
    match bytes {
        Some(held) => Some(held@),
        None => None,
    }
}

/// The view of a text that may be absent.
pub open spec fn text_view(text: Option<String>) -> Option<Seq<char>> {
    match text {
        Some(held) => Some(held@),
        None => None,
    }
}

/// One remembered cover: where it came from, its bytes and their base64 text.
pub struct CoverCache {
    source: Option<String>,
    raw: Option<Vec<u8>>,
    b64: Option<String>,
}

impl View for CoverCache {
    type V = CoverCacheView;

    closed spec fn view(&self) -> CoverCacheView {
        CoverCacheView {
            source: text_view(self.source),
            raw: bytes_view(self.raw),
            b64: text_view(self.b64),
        }
    }
}

impl CoverCache {
    #[verifier::type_invariant]
    spec fn well_formed(self) -> bool {
        self@.consistent()
    }

    /// The cache that remembers nothing.
    pub fn new() -> (cache: CoverCache)
        ensures
            cache@ == CoverCacheView::empty(),
    {
        CoverCache { source: None, raw: None, b64: None }
    }

    /// Whether the remembered cover came from `source`, so that the source
    /// need not be read again.
    pub fn holds(&self, source: &str) -> (hit: bool)
        ensures
            hit == self@.holds(source@),
            self@.consistent(),
    {
        proof {
            use_type_invariant(self);
        }
        match &self.source {
            Some(held) => text::equal(held.as_str(), source),
            None => false,
        }
    }

    /// Replaces what is remembered by the cover read from `source`: `bytes`,
    /// or nothing where reading failed.
    pub fn remember(&mut self, source: &str, bytes: Option<Vec<u8>>)
        ensures
            final(self)@ == old(self)@.remember(source@, bytes_view(bytes)),
            final(self)@.consistent(),
    {
        let encoded: Option<String> = match &bytes {
            Some(read) => encode_cover(read),
            None => None,
        };
        *self = match encoded {
            Some(text) => CoverCache { source: Some(source.to_owned()), raw: bytes, b64: Some(text) },
            None => CoverCache { source: Some(source.to_owned()), raw: None, b64: None },
        };
    }

    /// The base64 text of the remembered cover.
    pub fn b64(&self) -> (text: Option<String>)
        ensures
            text_view(text) == self@.b64,
            self@.consistent(),
    {
        proof {
            use_type_invariant(self);
        }
        match &self.b64 {
            Some(held) => Some(held.clone()),
            None => None,
        }
    }

    /// The bytes of the remembered cover.
    pub fn raw(&self) -> (bytes: Option<Vec<u8>>)
        ensures
            bytes_view(bytes) == self@.raw,
            self@.consistent(),
    {
        proof {
            use_type_invariant(self);
        }
        match &self.raw {
            Some(held) => Some(held.clone()),
            None => None,
        }
    }
}

/// Reading one source twice in a row is never needed: once a source was
/// remembered, the cache holds it, and remembering the same reading again
/// changes nothing.
pub proof fn lemma_remember_is_idempotent(
    cache: CoverCacheView,
    source: Seq<char>,
    bytes: Option<Seq<u8>>,
)
    ensures
        cache.remember(source, bytes).holds(source),
        cache.remember(source, bytes).remember(source, bytes) == cache.remember(source, bytes),
        cache.remember(source, bytes).consistent(),
{
}

/// A source other than the remembered one is not held: a new art URL is read.
pub proof fn lemma_other_source_is_not_held(
    cache: CoverCacheView,
    source: Seq<char>,
    other: Seq<char>,
    bytes: Option<Seq<u8>>,
)
    requires
        source != other,
    ensures
        !cache.remember(source, bytes).holds(other),
{
}

} // verus!
