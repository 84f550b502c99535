use vstd::prelude::*;

verus! {

/// The media kinds that can be shown.
#[derive(Clone, Copy, Debug, PartialEq, Eq, Structural)]
pub enum Kind {
    Audio,
    Image,
    Video,
    Invalid,
}

/// A MIME type sorted into one of the kinds, keeping the original string.
#[derive(Debug)]
pub enum Type {
    Audio(String),
    Image(String),
    Video(String),
    Invalid(String),
}

pub open spec fn audio_prefix() -> Seq<char> {
    seq!['a', 'u', 'd', 'i', 'o', '/']
}

pub open spec fn image_prefix() -> Seq<char> {
    seq!['i', 'm', 'a', 'g', 'e', '/']
}

pub open spec fn video_prefix() -> Seq<char> {
    seq!['v', 'i', 'd', 'e', 'o', '/']
}

/// The kind a MIME type belongs to, by its prefix.
pub open spec fn kind_of(mime: Seq<char>) -> Kind {
    if audio_prefix().is_prefix_of(mime) {
        Kind::Audio
    } else if image_prefix().is_prefix_of(mime) {
        Kind::Image
    } else if video_prefix().is_prefix_of(mime) {
        Kind::Video
    } else {
        Kind::Invalid
    }
}

/// Whether `prefix` is the start of `s`.
pub fn has_prefix(s: &str, prefix: &str) -> (r: bool)
    ensures
        r == prefix@.is_prefix_of(s@),
{
    let n = prefix.unicode_len();
    let m = s.unicode_len();
    if n > m {
        return false;
    }
    let mut i: usize = 0;
    while i < n
        invariant
            n == prefix@.len(),
            m == s@.len(),
            n <= m,
            i <= n,
            forall|j: int| 0 <= j < i ==> prefix@[j] == s@[j],
        decreases n - i,
    {
        if prefix.get_char(i) != s.get_char(i) {
            return false;
        }
        i = i + 1;
    }
    assert(prefix@ =~= s@.subrange(0, n as int));
    true
}

impl Type {
    pub open spec fn spec_kind(&self) -> Kind {
        match self {
            Type::Audio(_) => Kind::Audio,
            Type::Image(_) => Kind::Image,
            Type::Video(_) => Kind::Video,
            Type::Invalid(_) => Kind::Invalid,
        }
    }

    pub open spec fn spec_mime(&self) -> String {
        match self {
            Type::Audio(s) => *s,
            Type::Image(s) => *s,
            Type::Video(s) => *s,
            Type::Invalid(s) => *s,
        }
    }

    /// The type that a MIME string classifies to.
    pub open spec fn classify(mime: String) -> Type {
        match kind_of(mime@) {
            Kind::Audio => Type::Audio(mime),
            Kind::Image => Type::Image(mime),
            Kind::Video => Type::Video(mime),
            Kind::Invalid => Type::Invalid(mime),
        }
    }

    /// The kind of this type.
    pub fn kind(&self) -> (r: Kind)
        ensures
            r == self.spec_kind(),
    {
        match self {
            Type::Audio(_) => Kind::Audio,
            Type::Image(_) => Kind::Image,
            Type::Video(_) => Kind::Video,
            Type::Invalid(_) => Kind::Invalid,
        }
    }

    /// The MIME string this type was made from.
    pub fn mime(&self) -> (r: &String)
        ensures
            *r == self.spec_mime(),
    {
        match self {
            Type::Audio(s) => s,
            Type::Image(s) => s,
            Type::Video(s) => s,
            Type::Invalid(s) => s,
        }
    }

    /// Whether two types are of the same kind and hold the same MIME text.
    pub fn same_as(&self, other: &Type) -> (r: bool)
        ensures
            r == (self.spec_kind() == other.spec_kind() && self.spec_mime()@
                == other.spec_mime()@),
    {
        self.kind() == other.kind() && *self.mime() == *other.mime()
    }
}

/// The kind of a MIME type, by its prefix.
pub fn classify_kind(mime: &str) -> (r: Kind)
    ensures
        r == kind_of(mime@),
{
    let audio = has_prefix(mime, "audio/");
    let image = has_prefix(mime, "image/");
    let video = has_prefix(mime, "video/");
    proof {
        reveal_strlit("audio/");
        reveal_strlit("image/");
        reveal_strlit("video/");
        assert("audio/"@ =~= audio_prefix());
        assert("image/"@ =~= image_prefix());
        assert("video/"@ =~= video_prefix());
    }
    if audio {
        Kind::Audio
    } else if image {
        Kind::Image
    } else if video {
        Kind::Video
    } else {
        Kind::Invalid
    }
}

/// Whether two texts are the same.
pub fn same_text(a: &str, b: &str) -> (r: bool)
    ensures
        r == (a@ == b@),
{
    let eq = a.unicode_len() == b.unicode_len() && has_prefix(a, b);
    proof {
        if a@.len() == b@.len() && b@.is_prefix_of(a@) {
            assert(a@ =~= b@);
        }
    }
    eq
}

impl From<String> for Type {
    fn from(s: String) -> (r: Type)
        ensures
            r == Type::classify(s),
    {
        match classify_kind(s.as_str()) {
            Kind::Audio => Type::Audio(s),
            Kind::Image => Type::Image(s),
            Kind::Video => Type::Video(s),
            Kind::Invalid => Type::Invalid(s),
        }
    }
}

impl vstd::std_specs::convert::FromSpecImpl<String> for Type {
    open spec fn obeys_from_spec() -> bool {
        true
    }

    open spec fn from_spec(v: String) -> Type {
        Type::classify(v)
    }
}

/// Classification is total and keeps its input: every MIME string falls into
/// exactly one kind, decided by its prefix, and the resulting type holds the
/// string unchanged.
pub proof fn lemma_classify_total(mime: String)
    ensures
        Type::classify(mime).spec_mime() == mime,
        Type::classify(mime).spec_kind() == kind_of(mime@),
        audio_prefix().is_prefix_of(mime@) ==> Type::classify(mime).spec_kind() == Kind::Audio,
        !audio_prefix().is_prefix_of(mime@) && image_prefix().is_prefix_of(mime@)
            ==> Type::classify(mime).spec_kind() == Kind::Image,
        !audio_prefix().is_prefix_of(mime@) && !image_prefix().is_prefix_of(mime@)
            && video_prefix().is_prefix_of(mime@) ==> Type::classify(mime).spec_kind()
            == Kind::Video,
        !audio_prefix().is_prefix_of(mime@) && !image_prefix().is_prefix_of(mime@)
            && !video_prefix().is_prefix_of(mime@) ==> Type::classify(mime) == Type::Invalid(mime),
{
}

} // verus!
