use crate::error::WallpaperError;
use vstd::prelude::*;

verus! {

/// One entry of the wallpaper directory, as the caller listed it.
pub struct Entry {
    /// The entry's path; where the path is not valid text, its lossy form
    /// (invalid bytes replaced by U+FFFD).
    pub path: String,
    /// Whether the path is valid text as it stands.
    pub path_is_text: bool,
    /// Whether the entry is a regular file.
    pub is_file: bool,
}

impl Entry {
    /// A copy of the entry.
    pub fn duplicate(&self) -> (r: Entry)
        ensures
            r == *self,
    {
        Entry { path: self.path.clone(), path_is_text: self.path_is_text, is_file: self.is_file }
    }

    /// Whether the entry is a regular file with an image extension.
    pub fn is_candidate(&self) -> (r: bool)
        ensures
            r == candidate(*self),
    {
        if !self.is_file {
            return false;
        }
        match extension_of(self.path.as_str()) {
            Some(ext) => is_image_ext(ext.as_str()),
            None => false,
        }
    }
}

/// The extension that `Path::extension` finds in a path.
pub uninterp spec fn path_extension(path: Seq<char>) -> Option<Seq<char>>;

/// Relies on `std::path::Path::extension`: the part of the file name after its
/// last dot, if it has one that does not start the name.
#[verifier::external_body]
fn extension_of(path: &str) -> (r: Option<String>)
    ensures
        r is Some <==> path_extension(path@) is Some,
        r is Some ==> r->Some_0@ == path_extension(path@)->Some_0,
{
    let ext = std::path::Path::new(path).extension()?;
    Some(ext.to_string_lossy().into_owned())
}

/// Relies on `rand::thread_rng` and `rand::Rng::gen_range`: a number drawn from
/// `0..n`; an empty range panics.
#[verifier::external_body]
fn random_index(n: usize) -> (r: usize)
    requires
        n > 0,
    ensures
        r < n,
{
    rand::Rng::gen_range(&mut rand::thread_rng(), 0..n)
}

/// Whether `c`, turned to ASCII lower case, is `w`, for a lower-case `w`.
pub open spec fn lowers_to(c: char, w: char) -> bool {
    c == w || ('A' <= c && c <= 'Z' && c as u32 + 32 == w as u32)
}

/// Whether `s`, turned to ASCII lower case, is the lower-case `word`.
pub open spec fn matches_lowercase(s: Seq<char>, word: Seq<char>) -> bool {
    &&& s.len() == word.len()
    &&& forall|i: int| 0 <= i < s.len() ==> lowers_to(#[trigger] s[i], word[i])
}

/// Whether `ext` is `jpg`, `jpeg` or `png`, in any ASCII case.
pub open spec fn is_image_extension(ext: Seq<char>) -> bool {
    ||| matches_lowercase(ext, seq!['j', 'p', 'g'])
    ||| matches_lowercase(ext, seq!['j', 'p', 'e', 'g'])
    ||| matches_lowercase(ext, seq!['p', 'n', 'g'])
}

/// Whether the entry's path has an image extension.
pub open spec fn has_image_extension(e: Entry) -> bool {
    &&& path_extension(e.path@) is Some
    &&& is_image_extension(path_extension(e.path@)->Some_0)
}

/// Whether an entry may be chosen: a regular file whose extension is an image
/// extension.
pub open spec fn candidate(e: Entry) -> bool {
    e.is_file && has_image_extension(e)
}

/// The entries that may be chosen, in the order of the listing.
pub open spec fn candidates_of(entries: Seq<Entry>) -> Seq<Entry> {
    entries.filter(|e: Entry| candidate(e))
}

/// What selecting the candidate at index `draw` gives.
pub open spec fn selection(cands: Seq<Entry>, draw: int, r: Result<String, WallpaperError>) -> bool {
    if cands.len() == 0 {
        r matches Err(WallpaperError::ImageNotFound)
    } else if cands[draw].path_is_text {
        r is Ok && r->Ok_0@ == cands[draw].path@
    } else {
        r matches Err(WallpaperError::InvalidPath)
    }
}

fn matches_word(s: &str, word: &[char]) -> (r: bool)
    ensures
        r == matches_lowercase(s@, word@),
{
    let n = s.unicode_len();
    if n != word.len() {
        return false;
    }
    let mut i: usize = 0;
    while i < n
        invariant
            n == s@.len(),
            n == word@.len(),
            i <= n,
            forall|j: int| 0 <= j < i ==> lowers_to(#[trigger] s@[j], word@[j]),
        decreases n - i,
    {
        let c = s.get_char(i);
        let w = word[i];
        if !(c == w || ('A' <= c && c <= 'Z' && c as u32 + 32 == w as u32)) {
            return false;
        }
        i += 1;
    }
    true
}

/// Whether `ext` is `jpg`, `jpeg` or `png`, compared ignoring ASCII case.
pub fn is_image_ext(ext: &str) -> (r: bool)
    ensures
        r == is_image_extension(ext@),
{
    let jpg = ['j', 'p', 'g'];
    let jpeg = ['j', 'p', 'e', 'g'];
    let png = ['p', 'n', 'g'];
    assert(jpg@ =~= seq!['j', 'p', 'g']);
    assert(jpeg@ =~= seq!['j', 'p', 'e', 'g']);
    assert(png@ =~= seq!['p', 'n', 'g']);
    matches_word(ext, &jpg) || matches_word(ext, &jpeg) || matches_word(ext, &png)
}

/// The entries that may be chosen, in the order of the listing.
pub fn candidates(entries: &Vec<Entry>) -> (r: Vec<Entry>)
    ensures
        r@ == candidates_of(entries@),
{
    let mut out: Vec<Entry> = Vec::new();
    let mut i: usize = 0;
    while i < entries.len()
        invariant
            i <= entries@.len(),
            out@ == candidates_of(entries@.subrange(0, i as int)),
        decreases entries@.len() - i,
    {
        let e = &entries[i];
        if e.is_candidate() {
            out.push(e.duplicate());
        }
        proof {
            let next = entries@.subrange(0, i + 1);
            assert(next.drop_last() =~= entries@.subrange(0, i as int));
            assert(next.last() == entries@[i as int]);
            reveal_with_fuel(Seq::filter, 1);
        }
        i += 1;
    }
    assert(entries@.subrange(0, entries@.len() as int) =~= entries@);
    out
}

/// Selects the candidate at index `draw`: fails with `ImageNotFound` where
/// there is none, and with `InvalidPath` where its path is not valid text.
pub fn select_candidate(cands: &Vec<Entry>, draw: usize) -> (r: Result<String, WallpaperError>)
    requires
        cands@.len() == 0 || draw < cands@.len(),
    ensures
        selection(cands@, draw as int, r),
{
    if cands.len() == 0 {
        return Err(WallpaperError::ImageNotFound);
    }
    let chosen = &cands[draw];
    if !chosen.path_is_text {
        return Err(WallpaperError::InvalidPath);
    }
    Ok(chosen.path.clone())
}

/// Selects a wallpaper at random from a directory listing, which is `None`
/// where the directory could not be listed.
pub fn select_wallpaper(listing: Option<Vec<Entry>>) -> (r: Result<String, WallpaperError>)
    ensures
        listing is None ==> r matches Err(WallpaperError::DirectoryNotFound),
        listing is Some ==> exists|draw: int|
            (candidates_of(listing->Some_0@).len() == 0 || 0 <= draw < candidates_of(
                listing->Some_0@,
            ).len()) && #[trigger] selection(candidates_of(listing->Some_0@), draw, r),
        listing is Some && candidates_of(listing->Some_0@).len() == 1 ==> selection(
            candidates_of(listing->Some_0@),
            0,
            r,
        ),
{
    let entries = match listing {
        Some(entries) => entries,
        None => return Err(WallpaperError::DirectoryNotFound),
    };
    let cands = candidates(&entries);
    if cands.len() == 0 {
        let r = select_candidate(&cands, 0);
        assert(selection(cands@, 0, r));
        return r;
    }
    let draw = random_index(cands.len());
    let r = select_candidate(&cands, draw);
    assert(selection(cands@, draw as int, r));
    r
}

/// A listing in which no entry has an image extension has no candidate, and
/// selecting from it fails with `ImageNotFound`.
pub proof fn lemma_no_image_no_candidate(
    entries: Seq<Entry>,
    draw: int,
    r: Result<String, WallpaperError>,
)
    requires
        forall|i: int| 0 <= i < entries.len() ==> !has_image_extension(#[trigger] entries[i]),
        selection(candidates_of(entries), draw, r),
    ensures
        candidates_of(entries).len() == 0,
        r matches Err(WallpaperError::ImageNotFound),
{
    let pred = |e: Entry| candidate(e);
    assert(entries.all(|x: Entry| !pred(x)));
    entries.lemma_all_neg_filter_empty(pred);
}

/// The candidates are exactly the entries of the listing that are regular
/// files with an image extension: such an entry is kept, any other left out.
pub proof fn lemma_candidate_membership(entries: Seq<Entry>, e: Entry)
    ensures
        entries.contains(e) && candidate(e) ==> candidates_of(entries).contains(e),
        candidates_of(entries).contains(e) ==> entries.contains(e) && candidate(e),
{
    broadcast use vstd::seq_lib::group_filter_ensures;

    let pred = |x: Entry| candidate(x);
    if entries.contains(e) && candidate(e) {
        let i = choose|i: int| 0 <= i < entries.len() && entries[i] == e;
        entries.lemma_filter_contains(pred, i);
    }
    if candidates_of(entries).contains(e) {
        entries.lemma_filter_contains_rev(pred, e);
        let j = choose|j: int|
            0 <= j < entries.filter(pred).len() && entries.filter(pred)[j] == e;
        entries.lemma_filter_pred(pred, j);
    }
}

} // verus!
