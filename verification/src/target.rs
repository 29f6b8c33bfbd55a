//! A target: one URL and the name of the file its screenshot goes to.

use vstd::prelude::*;

verus! {

/// `s` with every non-overlapping `://`, found from the left, replaced by `-`.
pub open spec fn dash_scheme(s: Seq<char>) -> Seq<char>
    decreases s.len(),
{
    if s.len() == 0 {
        s
    } else if s.len() >= 3 && s[0] == ':' && s[1] == '/' && s[2] == '/' {
        seq!['-'] + dash_scheme(s.skip(3))
    } else {
        seq![s[0]] + dash_scheme(s.skip(1))
    }
}

/// `s` with every `/` replaced by `_`.
pub open spec fn underscore_slashes(s: Seq<char>) -> Seq<char> {
    Seq::new(s.len(), |i: int| if s[i] == '/' { '_' } else { s[i] })
}

/// The file name for a URL: `://` becomes `-`, then `/` becomes `_`, and
/// `.png` is put behind.
pub open spec fn filename_of(url: Seq<char>) -> Seq<char> {
    underscore_slashes(dash_scheme(url)) + seq!['.', 'p', 'n', 'g']
}

/// Replaces every `://` by `-`, scanning from the left.
pub fn replace_scheme_separator(s: &str) -> (r: String)
    ensures
        r@ == dash_scheme(s@),
{
    let n = s.unicode_len();
    let mut out = String::new();
    let mut i: usize = 0;
    assert(s@.skip(0) =~= s@);
    while i < n
        invariant
            n == s@.len(),
            i <= n,
            out@ + dash_scheme(s@.skip(i as int)) == dash_scheme(s@),
        decreases n - i,
    {
        let ghost rest = s@.skip(i as int);
        let ghost done = out@;
        if n - i >= 3 && s.get_char(i) == ':' && s.get_char(i + 1) == '/' && s.get_char(i + 2)
            == '/' {
            proof {
                reveal_strlit("-");
                assert(rest.skip(3) =~= s@.skip(i + 3));
                assert("-"@ =~= seq!['-']);
            }
            out.append("-");
            i += 3;
            assert(out@ + dash_scheme(s@.skip(i as int)) =~= done + dash_scheme(rest));
        } else {
            let piece = s.substring_char(i, i + 1);
            proof {
                assert(rest.skip(1) =~= s@.skip(i + 1));
                assert(piece@ =~= seq![rest[0]]);
            }
            out.append(piece);
            i += 1;
            assert(out@ + dash_scheme(s@.skip(i as int)) =~= done + dash_scheme(rest));
        }
    }
    assert(out@ + Seq::<char>::empty() =~= out@);
    out
}

/// Replaces every `/` by `_`.
pub fn replace_slashes(s: &str) -> (r: String)
    ensures
        r@ == underscore_slashes(s@),
{
    let n = s.unicode_len();
    let mut out = String::new();
    let mut i: usize = 0;
    while i < n
        invariant
            n == s@.len(),
            i <= n,
            out@ == underscore_slashes(s@.take(i as int)),
        decreases n - i,
    {
        let ghost done = out@;
        if s.get_char(i) == '/' {
            proof {
                reveal_strlit("_");
                assert("_"@ =~= seq!['_']);
            }
            out.append("_");
        } else {
            let piece = s.substring_char(i, i + 1);
            assert(piece@ =~= seq![s@[i as int]]);
            out.append(piece);
        }
        i += 1;
        assert(out@ =~= underscore_slashes(s@.take(i as int)));
    }
    assert(s@.take(n as int) =~= s@);
    out
}

/// The name of the file that the screenshot of `url` is written to.
pub fn derive_filename(url: &str) -> (name: String)
    ensures
        name@ == filename_of(url@),
{
    let dashed = replace_scheme_separator(url);
    let flat = replace_slashes(dashed.as_str());
    proof {
        reveal_strlit(".png");
        assert(".png"@ =~= seq!['.', 'p', 'n', 'g']);
    }
    flat.concat(".png")
}

/// One URL together with the file name derived from it.
pub struct Target {
    url: String,
    filename: String,
}

impl View for Target {
    type V = Seq<char>;

    /// A target is known by its URL: the file name follows from it.
    closed spec fn view(&self) -> Seq<char> {
        self.url@
    }
}

impl DeepView for Target {
    type V = Seq<char>;

    open spec fn deep_view(&self) -> Seq<char> {
        self.view()
    }
}

impl Target {
    #[verifier::type_invariant]
    spec fn derived(&self) -> bool {
        self.filename@ == filename_of(self.url@)
    }

    /// The target for `url`.
    pub fn new(url: &str) -> (t: Target)
        ensures
            t@ == url@,
    {
        Target { url: String::from_str(url), filename: derive_filename(url) }
    }

    /// The URL to visit.
    pub fn url(&self) -> (u: &str)
        ensures
            u@ == self@,
    {
        self.url.as_str()
    }

    /// The file that the screenshot goes to.
    pub fn filename(&self) -> (name: &str)
        ensures
            name@ == filename_of(self@),
    {
        proof {
            use_type_invariant(self);
        }
        self.filename.as_str()
    }
}

} // verus!
