//! Where the entries of a release archive go below the install directory.
//!
//! Many archives wrap their content in one directory named after the
//! release. Where every entry lies in the same top-level directory, and some
//! entry lies deeper than the top level, that directory is left out, so that
//! `pkg-1.0/bin/tool` is written to `bin/tool`. A flat archive is written as
//! it is. An entry that would be written outside the install directory is
//! refused before anything is written.

use crate::error::{ErrorView, MicasaError};
use crate::text::{concat, join, join_strings, split, split_of, str_eq, views_of};
use vstd::prelude::*;

verus! {

/// The pieces of a path that count as components: the empty ones do not
/// (two separators side by side, or one at an end), nor does `.`, unless it
/// is the path's first piece.
pub open spec fn kept(pieces: Seq<Seq<char>>, first: bool) -> Seq<Seq<char>>
    decreases pieces.len(),
{
    if pieces.len() == 0 {
        Seq::empty()
    } else if pieces[0].len() == 0 || (pieces[0] == seq!['.'] && !first) {
        kept(pieces.drop_first(), false)
    } else {
        seq![pieces[0]] + kept(pieces.drop_first(), false)
    }
}

/// The components of `path`, separated by `/`. A path that begins at the
/// root has `/` as its first component.
pub open spec fn components(path: Seq<char>) -> Seq<Seq<char>> {
    if path.len() > 0 && path[0] == '/' {
        seq![seq!['/']] + kept(split(path, '/'), true)
    } else {
        kept(split(path, '/'), true)
    }
}

/// The components of `path`.
pub fn components_of(path: &str) -> (out: Vec<String>)
    ensures
        out.deep_view() == components(path@),
{
    let pieces = split_of(path, '/');
    let mut out: Vec<String> = Vec::new();
    proof {
        reveal_strlit("/");
        reveal_strlit(".");
        crate::text::lemma_position_bounds(path@, '/');
    }
    assert("/"@ =~= seq!['/']);
    assert("."@ =~= seq!['.']);
    if pieces.len() > 0 && pieces[0].unicode_len() == 0 && path.unicode_len() > 0 {
        out.push("/".to_owned());
        assert(path@[0] == '/') by {
            assert(split(path@, '/')[0] == views_of(pieces@)[0]);
        }
        assert(out.deep_view() =~= seq![seq!['/']]);
    } else {
        assert(!(path@.len() > 0 && path@[0] == '/')) by {
            if path@.len() > 0 && path@[0] == '/' {
                let pieces_spec = split(path@, '/');
                assert(crate::text::position(path@, '/') == 0);
                assert(pieces_spec =~= seq![path@.take(0)] + split(path@.skip(1), '/'));
                assert(pieces_spec[0].len() == 0);
                assert(views_of(pieces@).len() == pieces@.len());
                assert(views_of(pieces@)[0] == pieces@[0]@);
            }
        }
        assert(out.deep_view() =~= Seq::<Seq<char>>::empty());
    }
    let ghost head = out.deep_view();
    let mut i: usize = 0;
    assert(views_of(pieces@).skip(0) =~= views_of(pieces@));
    assert(head + kept(views_of(pieces@), true) =~= components(path@));
    while i < pieces.len()
        invariant
            i <= pieces.len(),
            "."@ == seq!['.'],
            out.deep_view() + kept(views_of(pieces@).skip(i as int), i == 0) == components(path@),
        decreases pieces.len() - i,
    {
        let ghost rest = views_of(pieces@).skip(i as int);
        let ghost before = out.deep_view();
        assert(rest[0] == pieces@[i as int]@);
        assert(rest.drop_first() =~= views_of(pieces@).skip(i + 1));
        let piece = pieces[i];
        if piece.unicode_len() == 0 || (i != 0 && str_eq(piece, ".")) {
        } else {
            out.push(piece.to_owned());
            assert(out.deep_view() =~= before + seq![piece@]);
            assert(out.deep_view() + kept(rest.drop_first(), false) =~= before + kept(
                rest,
                i == 0,
            ));
        }
        i += 1;
    }
    assert(views_of(pieces@).skip(i as int) =~= Seq::<Seq<char>>::empty());
    assert(out.deep_view() + Seq::<Seq<char>>::empty() =~= out.deep_view());
    out
}

/// Whether an entry with these components would be written outside the
/// directory it is extracted to: it begins at the root, or steps to a parent.
pub open spec fn escapes(entry: Seq<Seq<char>>) -> bool {
    exists|i: int| 0 <= i < entry.len() && (#[trigger] entry[i] == seq!['.', '.'] || entry[i] == seq!['/'])
}

/// Whether some entry lies deeper than the top level.
pub open spec fn nested(entries: Seq<Seq<Seq<char>>>) -> bool {
    exists|i: int| 0 <= i < entries.len() && (#[trigger] entries[i]).len() > 1
}

/// Whether every entry that has a component at all has `root` as its first.
pub open spec fn rooted_in(entries: Seq<Seq<Seq<char>>>, root: Seq<char>) -> bool {
    forall|i: int| 0 <= i < entries.len() && (#[trigger] entries[i]).len() > 0 ==> entries[i][0] == root
}

/// The first component of the first entry that has one.
pub open spec fn first_root(entries: Seq<Seq<Seq<char>>>) -> Seq<char>
    decreases entries.len(),
{
    if entries.len() == 0 {
        Seq::empty()
    } else if entries[0].len() > 0 {
        entries[0][0]
    } else {
        first_root(entries.drop_first())
    }
}

/// The top-level directory that wraps the whole archive: the first component
/// that all entries share, if some entry lies deeper than the top level.
/// Entries without any component do not count.
pub open spec fn shared_root(entries: Seq<Seq<Seq<char>>>) -> Option<Seq<char>> {
    if nested(entries) && rooted_in(entries, first_root(entries)) {
        Some(first_root(entries))
    } else {
        None
    }
}

/// `first_root` is the first component at the first index whose entry has one.
pub proof fn lemma_first_root_is(entries: Seq<Seq<Seq<char>>>, at: int)
    requires
        0 <= at < entries.len(),
        entries[at].len() > 0,
        forall|j: int| 0 <= j < at ==> (#[trigger] entries[j]).len() == 0,
    ensures
        first_root(entries) == entries[at][0],
    decreases entries.len(),
{
    if at > 0 {
        let rest = entries.drop_first();
        assert(entries[0].len() == 0);
        assert forall|j: int| 0 <= j < at - 1 implies (#[trigger] rest[j]).len() == 0 by {
            assert(rest[j] == entries[j + 1]);
        }
        lemma_first_root_is(rest, at - 1);
    }
}

/// The top-level directory that wraps the whole archive, if there is one.
pub fn shared_root_of(entries: &Vec<Vec<String>>) -> (out: Option<String>)
    ensures
        out.deep_view() == shared_root(entries.deep_view()),
{
    let ghost all = entries.deep_view();
    let mut deep = false;
    let mut i: usize = 0;
    while i < entries.len()
        invariant
            i <= entries.len(),
            all == entries.deep_view(),
            deep <==> exists|j: int| 0 <= j < i && (#[trigger] all[j]).len() > 1,
        decreases entries.len() - i,
    {
        assert(all[i as int].len() == entries@[i as int].len());
        if entries[i].len() > 1 {
            deep = true;
        }
        i += 1;
    }
    if !deep {
        return None;
    }
    let mut first: usize = 0;
    while first < entries.len() && entries[first].len() == 0
        invariant
            first <= entries.len(),
            all == entries.deep_view(),
            forall|j: int| 0 <= j < first ==> (#[trigger] all[j]).len() == 0,
        decreases entries.len() - first,
    {
        assert(all[first as int].len() == entries@[first as int].len());
        first += 1;
    }
    if first == entries.len() {
        assert(false) by {
            let j = choose|j: int| 0 <= j < entries.len() && (#[trigger] all[j]).len() > 1;
            assert(all[j].len() == 0);
        }
        return None;
    }
    assert(all[first as int].len() == entries@[first as int].len());
    let root = entries[first][0].clone();
    proof {
        lemma_first_root_is(all, first as int);
        assert(all[first as int][0] == entries@[first as int]@[0]@);
    }
    let mut k: usize = 0;
    while k < entries.len()
        invariant
            k <= entries.len(),
            all == entries.deep_view(),
            root@ == first_root(all),
            forall|j: int| 0 <= j < k && (#[trigger] all[j]).len() > 0 ==> all[j][0] == root@,
        decreases entries.len() - k,
    {
        assert(all[k as int].len() == entries@[k as int].len());
        if entries[k].len() > 0 {
            assert(all[k as int][0] == entries@[k as int]@[0]@);
            if !str_eq(entries[k][0].as_str(), root.as_str()) {
                return None;
            }
        }
        k += 1;
    }
    Some(root)
}

/// Where an entry with these components goes, below the install directory:
/// without its first component, if that is the archive's shared root.
pub open spec fn target(entry: Seq<Seq<char>>, root: Option<Seq<char>>) -> Seq<Seq<char>> {
    if root is Some && entry.len() > 0 && entry[0] == root->0 {
        entry.skip(1)
    } else {
        entry
    }
}

/// The components of each path of `paths`.
pub open spec fn all_components(paths: Seq<Seq<char>>) -> Seq<Seq<Seq<char>>> {
    Seq::new(paths.len(), |i: int| components(paths[i]))
}

/// The index of the first path of `paths` that escapes; their number if none
/// does.
pub open spec fn first_escaping(paths: Seq<Seq<char>>) -> int
    decreases paths.len(),
{
    if paths.len() == 0 || escapes(components(paths[0])) {
        0
    } else {
        1 + first_escaping(paths.drop_first())
    }
}

pub proof fn lemma_first_escaping_is(paths: Seq<Seq<char>>, at: int)
    requires
        0 <= at <= paths.len(),
        forall|j: int| 0 <= j < at ==> !escapes(components(#[trigger] paths[j])),
        at < paths.len() ==> escapes(components(paths[at])),
    ensures
        first_escaping(paths) == at,
    decreases paths.len(),
{
    if paths.len() == 0 || escapes(components(paths[0])) {
        if at > 0 {
            assert(!escapes(components(paths[0])));
        }
    } else {
        let rest = paths.drop_first();
        assert forall|j: int| 0 <= j < at - 1 implies !escapes(components(#[trigger] rest[j])) by {
            assert(rest[j] == paths[j + 1]);
        }
        lemma_first_escaping_is(rest, at - 1);
    }
}

/// Where each entry of an archive goes, relative to the install directory,
/// given the paths of all its entries in order. An archive with an entry
/// that escapes is refused, and the failure names the first such entry.
pub open spec fn layout(paths: Seq<Seq<char>>) -> Result<Seq<Seq<char>>, ErrorView> {
    let at = first_escaping(paths);
    if 0 <= at < paths.len() {
        Err(ErrorView::ExtractionFailed("Unsafe path in archive: "@ + paths[at]))
    } else {
        let root = shared_root(all_components(paths));
        Ok(Seq::new(paths.len(), |i: int| join(target(components(paths[i]), root), seq!['/'])))
    }
}

/// Whether an entry with these components would be written outside the
/// directory it is extracted to.
pub fn escapes_check(entry: &Vec<String>) -> (b: bool)
    ensures
        b == escapes(entry.deep_view()),
{
    proof {
        reveal_strlit("..");
        reveal_strlit("/");
    }
    assert(".."@ =~= seq!['.', '.']);
    assert("/"@ =~= seq!['/']);
    let ghost all = entry.deep_view();
    let mut i: usize = 0;
    while i < entry.len()
        invariant
            i <= entry.len(),
            all == entry.deep_view(),
            ".."@ == seq!['.', '.'],
            "/"@ == seq!['/'],
            forall|j: int| 0 <= j < i ==> !(#[trigger] all[j] == seq!['.', '.'] || all[j] == seq!['/']),
        decreases entry.len() - i,
    {
        assert(all[i as int] == entry@[i as int]@);
        if str_eq(entry[i].as_str(), "..") || str_eq(entry[i].as_str(), "/") {
            return true;
        }
        i += 1;
    }
    false
}

/// What the result of laying out an archive denotes.
pub open spec fn layout_view(r: Result<Vec<String>, MicasaError>) -> Result<
    Seq<Seq<char>>,
    ErrorView,
> {
    match r {
        Ok(targets) => Ok(targets.deep_view()),
        Err(e) => Err(e@),
    }
}

/// Where an entry with these components goes, below the install directory.
pub fn target_of(entry: &Vec<String>, root: &Option<String>) -> (out: String)
    ensures
        out@ == join(target(entry.deep_view(), root.deep_view()), seq!['/']),
{
    proof {
        reveal_strlit("/");
    }
    assert("/"@ =~= seq!['/']);
    let strip = match root {
        Some(r) => entry.len() > 0 && str_eq(entry[0].as_str(), r.as_str()),
        None => false,
    };
    assert(entry.len() > 0 ==> entry.deep_view()[0] == entry@[0]@);
    if strip {
        let mut rest: Vec<String> = Vec::new();
        let mut i: usize = 1;
        assert(rest.deep_view() =~= entry.deep_view().subrange(1, 1));
        while i < entry.len()
            invariant
                1 <= i <= entry.len(),
                rest.deep_view() == entry.deep_view().subrange(1, i as int),
            decreases entry.len() - i,
        {
            let ghost before = rest.deep_view();
            rest.push(entry[i].clone());
            assert(rest.deep_view() =~= before.push(entry@[i as int]@));
            assert(entry.deep_view().subrange(1, i + 1) =~= before.push(entry@[i as int]@));
            i += 1;
        }
        assert(entry.deep_view().subrange(1, i as int) =~= entry.deep_view().skip(1));
        join_strings(&rest, "/")
    } else {
        join_strings(entry, "/")
    }
}

/// Where each entry of an archive goes, relative to the install directory,
/// given the paths of all its entries in order.
pub fn extraction_layout(paths: &Vec<String>) -> (r: Result<Vec<String>, MicasaError>)
    ensures
        layout_view(r) == layout(paths.deep_view()),
{
    let ghost texts = paths.deep_view();
    let mut entries: Vec<Vec<String>> = Vec::new();
    let mut i: usize = 0;
    while i < paths.len()
        invariant
            i <= paths.len(),
            texts == paths.deep_view(),
            entries.len() == i,
            forall|j: int| 0 <= j < i ==> (#[trigger] entries.deep_view()[j]) == components(texts[j]),
            forall|j: int| 0 <= j < i ==> !escapes(components(#[trigger] texts[j])),
        decreases paths.len() - i,
    {
        assert(texts[i as int] == paths@[i as int]@);
        let entry = components_of(paths[i].as_str());
        if escapes_check(&entry) {
            proof {
                lemma_first_escaping_is(texts, i as int);
            }
            return Err(
                MicasaError::ExtractionFailed(
                    concat("Unsafe path in archive: ", paths[i].as_str()),
                ),
            );
        }
        let ghost before = entries.deep_view();
        let ghost added = entry.deep_view();
        entries.push(entry);
        assert(entries.deep_view() =~= before.push(added));
        i += 1;
    }
    proof {
        lemma_first_escaping_is(texts, paths.len() as int);
        assert(entries.deep_view() =~= all_components(texts));
    }
    let root = shared_root_of(&entries);
    let mut targets: Vec<String> = Vec::new();
    let mut k: usize = 0;
    while k < entries.len()
        invariant
            k <= entries.len(),
            entries.len() == paths.len(),
            texts == paths.deep_view(),
            entries.deep_view() == all_components(texts),
            targets.len() == k,
            forall|j: int| 0 <= j < k ==> (#[trigger] targets.deep_view()[j]) == join(
                target(components(texts[j]), root.deep_view()),
                seq!['/'],
            ),
        decreases entries.len() - k,
    {
        assert(entries.deep_view()[k as int] == entries@[k as int].deep_view());
        let t = target_of(&entries[k], &root);
        let ghost before = targets.deep_view();
        let ghost added = t@;
        targets.push(t);
        assert(targets.deep_view() =~= before.push(added));
        k += 1;
    }
    assert(targets.deep_view() =~= Seq::new(
        texts.len(),
        |i: int| join(target(components(texts[i]), root.deep_view()), seq!['/']),
    ));
    Ok(targets)
}

/// A wrapped archive is unwrapped: where no entry escapes, every entry
/// begins with the same component and some entry lies deeper, each entry
/// goes where its path says, less that first component.
pub proof fn law_wrapped_archive_is_unwrapped(paths: Seq<Seq<char>>, root: Seq<char>)
    requires
        forall|i: int| 0 <= i < paths.len() ==> !escapes(components(#[trigger] paths[i])),
        forall|i: int|
            0 <= i < paths.len() ==> components(#[trigger] paths[i]).len() > 0 && components(
                paths[i],
            )[0] == root,
        exists|i: int| 0 <= i < paths.len() && components(#[trigger] paths[i]).len() > 1,
    ensures
        layout(paths) == Ok::<Seq<Seq<char>>, ErrorView>(
            Seq::new(paths.len(), |i: int| join(components(paths[i]).skip(1), seq!['/'])),
        ),
{
    let entries = all_components(paths);
    lemma_first_escaping_is(paths, paths.len() as int);
    let deep = choose|i: int| 0 <= i < paths.len() && components(#[trigger] paths[i]).len() > 1;
    assert(entries[deep].len() > 1);
    assert(entries[0] == components(paths[0]));
    lemma_first_root_is(entries, 0);
    assert forall|i: int| 0 <= i < entries.len() && (#[trigger] entries[i]).len() > 0 implies entries[i][0]
        == root by {
        assert(entries[i] == components(paths[i]));
    }
    assert(shared_root(entries) == Some(root));
    assert(Seq::new(paths.len(), |i: int| join(target(components(paths[i]), Some(root)), seq!['/']))
        =~= Seq::new(paths.len(), |i: int| join(components(paths[i]).skip(1), seq!['/'])));
}

/// A flat or mixed archive is left as it is: where no entry escapes, and
/// either no entry lies deeper than the top level or two entries begin with
/// different components, each entry goes where its path says.
pub proof fn law_unwrapped_archive_is_unchanged(paths: Seq<Seq<char>>)
    requires
        forall|i: int| 0 <= i < paths.len() ==> !escapes(components(#[trigger] paths[i])),
        (forall|i: int| 0 <= i < paths.len() ==> components(#[trigger] paths[i]).len() <= 1) || (
        exists|i: int, j: int|
            0 <= i < paths.len() && 0 <= j < paths.len() && components(#[trigger] paths[i]).len()
                > 0 && components(#[trigger] paths[j]).len() > 0 && components(paths[i])[0]
                != components(paths[j])[0]),
    ensures
        layout(paths) == Ok::<Seq<Seq<char>>, ErrorView>(
            Seq::new(paths.len(), |i: int| join(components(paths[i]), seq!['/'])),
        ),
{
    let entries = all_components(paths);
    lemma_first_escaping_is(paths, paths.len() as int);
    if forall|i: int| 0 <= i < paths.len() ==> components(#[trigger] paths[i]).len() <= 1 {
        if nested(entries) {
            let i = choose|i: int| 0 <= i < entries.len() && (#[trigger] entries[i]).len() > 1;
            assert(entries[i] == components(paths[i]));
        }
    } else {
        let (i, j) = choose|i: int, j: int|
            0 <= i < paths.len() && 0 <= j < paths.len() && components(#[trigger] paths[i]).len()
                > 0 && components(#[trigger] paths[j]).len() > 0 && components(paths[i])[0]
                != components(paths[j])[0];
        assert(entries[i] == components(paths[i]));
        assert(entries[j] == components(paths[j]));
        if rooted_in(entries, first_root(entries)) {
            assert(entries[i][0] == first_root(entries));
            assert(entries[j][0] == first_root(entries));
        }
    }
    assert(shared_root(entries) is None);
    assert(Seq::new(paths.len(), |i: int| join(target(components(paths[i]), None), seq!['/']))
        =~= Seq::new(paths.len(), |i: int| join(components(paths[i]), seq!['/'])));
}

} // verus!
