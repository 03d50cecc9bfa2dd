//! The slug of an article: its title made URL-friendly, then a dash and ten
//! random letters and digits, so that titles may repeat.
use vstd::prelude::*;
use rand::Rng;
use crate::text::push_char;

verus! {

/// What `slug::slugify` makes of a text.
pub uninterp spec fn slugified(text: Seq<char>) -> Seq<char>;

/// Whether `c` is a character a slug is made of: `a`-`z`, `0`-`9` or `-`.
pub open spec fn is_slug_char(c: char) -> bool {
    ('a' <= c <= 'z') || ('0' <= c <= '9') || c == '-'
}

/// Whether `s` has the shape the `slug` crate documents for its slugs: only
/// `a`-`z`, `0`-`9` and `-`, never two dashes in a row, and no dash at
/// either end.
pub open spec fn is_slug(s: Seq<char>) -> bool {
    &&& forall|i: int| 0 <= i < s.len() ==> is_slug_char(#[trigger] s[i])
    &&& forall|i: int| 0 <= i < s.len() - 1 ==> !(#[trigger] s[i] == '-' && s[i + 1] == '-')
    &&& s.len() > 0 ==> s[0] != '-' && s[s.len() - 1] != '-'
}

/// Whether `c` is an ASCII letter or digit.
pub open spec fn is_alphanumeric(c: char) -> bool {
    ('a' <= c <= 'z') || ('A' <= c <= 'Z') || ('0' <= c <= '9')
}

/// The slug `slug::slugify` makes of the text. Claimed: it is the function
/// `slugified` of the text, and it has the shape the crate documents.
#[verifier::external_body]
fn slug_of(text: &str) -> (slug: String)
    ensures
        slug@ == slugified(text@),
        is_slug(slug@),
{
    slug::slugify(text)
}

/// A random ASCII letter or digit from `rand`'s `Alphanumeric` distribution,
/// drawn from the thread's generator. Claimed: it is a letter or a digit;
/// which one is chance.
#[verifier::external_body]
fn random_alphanumeric() -> (c: char)
    ensures
        is_alphanumeric(c),
{
    rand::thread_rng().sample(rand::distributions::Alphanumeric)
}

/// Whether `s` is the slug of `title`, a dash, and ten random letters and
/// digits.
pub open spec fn is_slug_for(s: Seq<char>, title: Seq<char>) -> bool {
    &&& s.len() == slugified(title).len() + 11
    &&& s.subrange(0, slugified(title).len() as int) == slugified(title)
    &&& s[slugified(title).len() as int] == '-'
    &&& forall|i: int| slugified(title).len() + 1 <= i < s.len() ==> is_alphanumeric(#[trigger] s[i])
}

/// The slug of a title with ten random letters and digits after a dash.
pub fn slugify(value: &str) -> (s: String)
    ensures
        is_slug_for(s@, value@),
{
    let mut s = slug_of(value);
    let ghost base = s@;
    push_char(&mut s, '-');
    let mut i: usize = 0;
    while i < 10
        invariant
            i <= 10,
            base == slugified(value@),
            s@.len() == base.len() + 1 + i,
            s@.subrange(0, base.len() as int) == base,
            s@[base.len() as int] == '-',
            forall|j: int| base.len() + 1 <= j < s@.len() ==> is_alphanumeric(#[trigger] s@[j]),
        decreases 10 - i,
    {
        let c = random_alphanumeric();
        let ghost prev = s@;
        push_char(&mut s, c);
        proof {
            assert(s@.subrange(0, base.len() as int) =~= prev.subrange(0, base.len() as int));
            assert forall|j: int| base.len() + 1 <= j < s@.len() implies is_alphanumeric(#[trigger] s@[j]) by {
                if j < prev.len() {
                    assert(s@[j] == prev[j]);
                }
            }
        }
        i = i + 1;
    }
    s
}

/// Makes slugs for titles. Which slugs a slugifier makes is described by
/// `makes_slug`.
pub trait CanSlugify {
    /// Whether `s` is a slug this slugifier makes for `value`.
    spec fn makes_slug(&self, s: Seq<char>, value: Seq<char>) -> bool;

    fn slugify(&self, value: &str) -> (s: String)
        ensures
            self.makes_slug(s@, value@),
    ;
}

/// The service makes slugs with `slugify`.
impl<P> CanSlugify for crate::hub::Hub<P> {
    open spec fn makes_slug(&self, s: Seq<char>, value: Seq<char>) -> bool {
        is_slug_for(s, value)
    }

    fn slugify(&self, value: &str) -> (s: String) {
        slugify(value)
    }
}

} // verus!
