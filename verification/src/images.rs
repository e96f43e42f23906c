//! The image pool: enumeration of eligible content from a directory
//! listing, uniform random selection, sidecar association, and the
//! archive move plan.

use vstd::prelude::*;
use crate::paths::{
    base_of, file_name, is_image_file, is_image_name, join, joined, sidecar_for, sidecar_name,
};
use crate::sidecar::{credit_of, load_credit};

verus! {

/// The two roots the pool lives in. Directory membership at scan time
/// is the tracked state; no index of the contents is kept here.
#[derive(Clone, Debug)]
pub struct Images {
    path: String,
    uploaded_path: String,
}

/// One selected candidate: its content path, the path of its sidecar
/// record when one is present beside it, and the attribution read from
/// that record when it parses.
#[derive(Clone, Debug)]
pub struct Image {
    pub path: String,
    pub toml_path: Option<String>,
    pub credit: Option<String>,
}

/// The predicate an eligible entry name satisfies, as a value usable
/// with `Seq::filter`.
pub open spec fn image_name_pred() -> spec_fn(Seq<char>) -> bool {
    |n: Seq<char>| is_image_name(n)
}

/// No entry of the listing is eligible content.
pub open spec fn no_image_in(entries: Seq<Seq<char>>) -> bool {
    forall|k: int| 0 <= k < entries.len() ==> !is_image_name(#[trigger] entries[k])
}

/// `img` is a candidate that the listing `entries` of directory `dir`
/// supports under the entry name `name`: the name is listed and
/// eligible, the content path joins the directory with it, the sidecar
/// path is present exactly when the listing holds the sidecar name, and
/// no attribution has been attached yet.
pub open spec fn candidate_for(
    img: Image,
    dir: Seq<char>,
    name: Seq<char>,
    entries: Seq<Seq<char>>,
) -> bool {
    &&& entries.contains(name)
    &&& is_image_name(name)
    &&& img.path@ == joined(dir, name)
    &&& img.credit is None
    &&& (entries.contains(sidecar_name(name)) ==> (img.toml_path matches Some(t) && t@ == joined(
        dir,
        sidecar_name(name),
    )))
    &&& (!entries.contains(sidecar_name(name)) ==> img.toml_path is None)
}

/// Relies on rand::random_range: a uniform draw from the given range.
/// It panics only on an empty range, which the precondition excludes.
#[verifier::external_body]
fn random_index(n: usize) -> (r: usize)
    requires
        1 <= n,
    ensures
        r < n,
{
    rand::random_range(0..n)
}

/// Keeps the entries whose names are eligible content, in order.
fn image_entries(entries: &Vec<String>) -> (r: Vec<String>)
    ensures
        r.deep_view() == entries.deep_view().filter(image_name_pred()),
{
    let mut r: Vec<String> = Vec::new();
    let mut i: usize = 0;
    proof {
        assert(entries.deep_view().take(0).filter(image_name_pred())
            =~= Seq::<Seq<char>>::empty());
        assert(r.deep_view() =~= Seq::<Seq<char>>::empty());
    }
    while i < entries.len()
        invariant
            i <= entries.len(),
            entries.deep_view().len() == entries.len(),
            r.deep_view() == entries.deep_view().take(i as int).filter(image_name_pred()),
        decreases entries.len() - i,
    {
        proof {
            reveal(Seq::filter);
            assert(entries.deep_view().take(i + 1).drop_last() =~= entries.deep_view().take(
                i as int,
            ));
            assert(entries.deep_view().take(i + 1).last() == entries.deep_view()[i as int]);
        }
        let ghost pre = r.deep_view();
        if is_image_file(entries[i].as_str()) {
            let e = entries[i].clone();
            r.push(e);
            proof {
                assert(r.deep_view() =~= pre.push(entries.deep_view()[i as int]));
            }
        }
        proof {
            assert(r.deep_view() == entries.deep_view().take(i + 1).filter(image_name_pred()));
        }
        i = i + 1;
    }
    proof {
        assert(entries.deep_view().take(entries.deep_view().len() as int) =~= entries.deep_view());
    }
    r
}

/// Every element of a filtered listing is an element of the listing.
proof fn lemma_filter_subset(s: Seq<Seq<char>>, i: int)
    requires
        0 <= i < s.filter(image_name_pred()).len(),
    ensures
        s.contains(s.filter(image_name_pred())[i]),
    decreases s.len(),
{
    reveal(Seq::filter);
    if s.len() > 0 {
        let sub = s.drop_last().filter(image_name_pred());
        if i < sub.len() {
            lemma_filter_subset(s.drop_last(), i);
            let j = choose|j: int| 0 <= j < s.drop_last().len() && s.drop_last()[j] == sub[i];
            assert(s[j] == sub[i]);
        } else {
            assert(s.filter(image_name_pred())[i] == s.last());
            assert(s[s.len() - 1] == s.last());
        }
    }
}

/// Searches the listing for an entry whose text is `t`.
fn contains_string(v: &Vec<String>, t: &String) -> (b: bool)
    ensures
        b == v.deep_view().contains(t@),
{
    let mut i: usize = 0;
    while i < v.len()
        invariant
            i <= v.len(),
            v.deep_view().len() == v.len(),
            forall|j: int| 0 <= j < i ==> v.deep_view()[j] != t@,
        decreases v.len() - i,
    {
        if v[i].eq(t) {
            assert(v.deep_view()[i as int] == t@);
            return true;
        }
        i = i + 1;
    }
    assert(!v.deep_view().contains(t@));
    false
}

impl Images {
    /// The source root: where eligible content waits.
    pub closed spec fn src_dir(&self) -> Seq<char> {
        self.path@
    }

    /// The archive root: where consumed content is moved.
    pub closed spec fn dst_dir(&self) -> Seq<char> {
        self.uploaded_path@
    }

    /// A pool over the given source and archive roots.
    pub fn new(path: String, uploaded_path: String) -> (r: Images)
        ensures
            r.src_dir() == path@,
            r.dst_dir() == uploaded_path@,
    {
        Images { path, uploaded_path }
    }

    /// The source root as text, for the caller that scans it.
    pub fn source_root(&self) -> (r: &String)
        ensures
            r@ == self.src_dir(),
    {
        &self.path
    }

    /// The archive root as text, for the caller that prepares it.
    pub fn archive_root(&self) -> (r: &String)
        ensures
            r@ == self.dst_dir(),
    {
        &self.uploaded_path
    }

    /// Draws one candidate uniformly at random from the listing of the
    /// source root, or reports that nothing is eligible. Selection is
    /// read-only: no entry is consumed here.
    pub fn get_random_image(&self, entries: &Vec<String>) -> (r: Option<Image>)
        ensures
            match r {
                None => no_image_in(entries.deep_view()),
                Some(img) => exists|name: Seq<char>|
                    candidate_for(img, self.src_dir(), name, entries.deep_view()),
            },
    {
        let imgs = image_entries(entries);
        if imgs.len() == 0 {
            proof {
                broadcast use vstd::seq_lib::group_filter_ensures;

                assert forall|k: int|
                    0 <= k < entries.deep_view().len() implies !is_image_name(
                    #[trigger] entries.deep_view()[k],
                ) by {
                    if is_image_name(entries.deep_view()[k]) {
                        assert(image_name_pred()(entries.deep_view()[k]));
                        assert(entries.deep_view().filter(image_name_pred()).contains(
                            entries.deep_view()[k],
                        ));
                    }
                }
            }
            return None;
        }
        let idx = random_index(imgs.len());
        let name = &imgs[idx];
        proof {
            broadcast use vstd::seq_lib::group_filter_ensures;

            lemma_filter_subset(entries.deep_view(), idx as int);
            assert(is_image_name(name@));
            assert(entries.deep_view().contains(name@));
        }
        let path = join(self.path.as_str(), name.as_str());
        let sc = sidecar_for(name.as_str());
        let has_sidecar = contains_string(entries, &sc);
        let toml_path = if has_sidecar {
            Some(join(self.path.as_str(), sc.as_str()))
        } else {
            None
        };
        let img = Image { path, toml_path, credit: None };
        proof {
            assert(candidate_for(img, self.src_dir(), name@, entries.deep_view()));
        }
        Some(img)
    }

    /// Plans the archive move for a published candidate: each pair is a
    /// rename of one file, source first, sidecar second when there is
    /// one. Every destination keeps the file's base name and lies under
    /// the archive root. The caller performs the renames independently
    /// of one another.
    pub fn move_files(&self, image: &Image) -> (moves: Vec<(String, String)>)
        ensures
            moves@.len() == (if image.toml_path is Some {
                2int
            } else {
                1int
            }),
            moves@[0].0@ == image.path@,
            moves@[0].1@ == joined(self.dst_dir(), base_of(image.path@)),
            image.toml_path matches Some(t) ==> moves@[1].0@ == t@ && moves@[1].1@ == joined(
                self.dst_dir(),
                base_of(t@),
            ),
    {
        let mut moves: Vec<(String, String)> = Vec::new();
        let base = file_name(image.path.as_str());
        let dst = join(self.uploaded_path.as_str(), base.as_str());
        moves.push((image.path.clone(), dst));
        match &image.toml_path {
            Some(t) => {
                let sidecar_base = file_name(t.as_str());
                let sidecar_dst = join(self.uploaded_path.as_str(), sidecar_base.as_str());
                moves.push((t.clone(), sidecar_dst));
            },
            None => {},
        }
        moves
    }
}

impl Default for Images {
    /// The default roots the poster runs with. Creating the directories
    /// is the caller's startup duty.
    fn default() -> (r: Images)
        ensures
            r.src_dir() == "./images"@,
            r.dst_dir() == "./uploaded"@,
    {
        Images {
            path: String::from_str("./images"),
            uploaded_path: String::from_str("./uploaded"),
        }
    }
}

impl Image {
    /// Attaches the attribution read from the sidecar text, leaving the
    /// paths as they are. Absent, unreadable and unparsable sidecars
    /// all yield a candidate without attribution.
    pub fn with_sidecar_text(self, text: Option<&str>) -> (r: Image)
        ensures
            r.path == self.path,
            r.toml_path == self.toml_path,
            match text {
                Some(t) => match r.credit {
                    Some(c) => credit_of(t@) == Some(c@),
                    None => credit_of(t@) is None,
                },
                None => r.credit is None,
            },
    {
        let credit = match text {
            Some(t) => load_credit(t),
            None => None,
        };
        Image { path: self.path, toml_path: self.toml_path, credit }
    }
}

/// Two entry names joined onto one directory give equal paths only if
/// they are the same name.
proof fn lemma_joined_injective(dir: Seq<char>, a: Seq<char>, b: Seq<char>)
    requires
        joined(dir, a) == joined(dir, b),
    ensures
        a == b,
{
    let la = joined(dir, a);
    let lb = joined(dir, b);
    assert(la.len() == dir.len() + "/"@.len() + a.len());
    assert(lb.len() == dir.len() + "/"@.len() + b.len());
    assert(a =~= la.subrange(dir.len() + "/"@.len() as int, la.len() as int));
    assert(b =~= lb.subrange(dir.len() + "/"@.len() as int, lb.len() as int));
}

/// Law: selection only returns members of the listing it is given, so
/// a candidate whose name has left the source listing — as a completed
/// archive move removes it — can never be selected again.
pub proof fn archived_never_reselected(
    entries: Seq<Seq<char>>,
    dir: Seq<char>,
    archived: Seq<char>,
    img: Image,
    name: Seq<char>,
)
    requires
        !entries.contains(archived),
        candidate_for(img, dir, name, entries),
    ensures
        name != archived,
        img.path@ != joined(dir, archived),
{
    if img.path@ == joined(dir, archived) {
        lemma_joined_injective(dir, name, archived);
    }
}

} // verus!
