//! The manifest: a text file that lists packages, one to a line, each with an
//! optional version constraint after a colon. Blank lines and lines that
//! begin with `#` are skipped.

use crate::error::{ErrorView, MicasaError};
use crate::text::{
    chars_of, concat, decimal, decimal_of, lines, lines_of, position,
    split_once, trim, trim_of, views_of,
};
use vstd::prelude::*;

verus! {

/// One package of the manifest.
#[derive(Debug, Clone, PartialEq)]
pub struct ManifestEntry {
    /// The package.
    pub name: String,
    /// The version constraint, as written (`>=0.11.5`, `~=0.9.17`).
    pub version_spec: Option<String>,
}

/// What a `ManifestEntry` denotes.
pub struct ManifestEntryView {
    pub name: Seq<char>,
    pub version_spec: Option<Seq<char>>,
}

impl View for ManifestEntry {
    type V = ManifestEntryView;

    open spec fn view(&self) -> ManifestEntryView {
        ManifestEntryView { name: self.name@, version_spec: self.version_spec.deep_view() }
    }
}

/// What each entry of `entries` denotes.
pub open spec fn entry_views(entries: Seq<ManifestEntry>) -> Seq<ManifestEntryView> {
    Seq::new(entries.len(), |i: int| entries[i]@)
}

/// What one line of a manifest says.
pub enum LineReading {
    /// Blank, or a comment.
    Skipped,
    /// A package.
    Entry(ManifestEntryView),
    /// A colon with no package name before it.
    Nameless,
}

/// What `line` says. Text around the name and around the constraint does not
/// count if it is whitespace; the first colon parts name from constraint.
pub open spec fn read_line(line: Seq<char>) -> LineReading {
    let t = trim(line);
    if t.len() == 0 || t[0] == '#' {
        LineReading::Skipped
    } else {
        let colon = position(t, ':');
        if colon < t.len() {
            if trim(t.take(colon)).len() == 0 {
                LineReading::Nameless
            } else {
                LineReading::Entry(
                    ManifestEntryView {
                        name: trim(t.take(colon)),
                        version_spec: Some(trim(t.skip(colon + 1))),
                    },
                )
            }
        } else {
            LineReading::Entry(ManifestEntryView { name: t, version_spec: None })
        }
    }
}

/// `entries` before what `rest` yields, or the failure of `rest`.
pub open spec fn after(
    entries: Seq<ManifestEntryView>,
    rest: Result<Seq<ManifestEntryView>, ErrorView>,
) -> Result<Seq<ManifestEntryView>, ErrorView> {
    match rest {
        Ok(more) => Ok(entries + more),
        Err(e) => Err(e),
    }
}

/// The entries of `lines`, the first of which is line number `number` of its
/// file; or the failure at the first line that has a colon and no name.
pub open spec fn read_lines(lines: Seq<Seq<char>>, number: nat) -> Result<
    Seq<ManifestEntryView>,
    ErrorView,
>
    decreases lines.len(),
{
    if lines.len() == 0 {
        Ok(Seq::empty())
    } else {
        match read_line(lines[0]) {
            LineReading::Skipped => read_lines(lines.drop_first(), number + 1),
            LineReading::Entry(entry) => after(
                seq![entry],
                read_lines(lines.drop_first(), number + 1),
            ),
            LineReading::Nameless => Err(
                ErrorView::ManifestParseError("Empty package name on line "@ + decimal(number)),
            ),
        }
    }
}

/// The entries that the manifest text `content` lists, in order.
pub open spec fn parsed(content: Seq<char>) -> Result<Seq<ManifestEntryView>, ErrorView> {
    read_lines(lines(content), 1)
}

/// What the result of parsing denotes.
pub open spec fn parsed_view(r: Result<Vec<ManifestEntry>, MicasaError>) -> Result<
    Seq<ManifestEntryView>,
    ErrorView,
> {
    match r {
        Ok(entries) => Ok(entry_views(entries@)),
        Err(e) => Err(e@),
    }
}

/// The packages to install, in the order of the manifest.
#[derive(Debug, Clone)]
pub struct Manifest {
    entries: Vec<ManifestEntry>,
}

impl View for Manifest {
    type V = Seq<ManifestEntryView>;

    closed spec fn view(&self) -> Seq<ManifestEntryView> {
        entry_views(self.entries@)
    }
}

enum Line {
    Skipped,
    Entry(ManifestEntry),
    Nameless,
}

impl Line {
    spec fn reading(self) -> LineReading {
        match self {
            Line::Skipped => LineReading::Skipped,
            Line::Entry(entry) => LineReading::Entry(entry@),
            Line::Nameless => LineReading::Nameless,
        }
    }
}

fn read(line: &str) -> (out: Line)
    ensures
        out.reading() == read_line(line@),
{
    let t = trim_of(line);
    let first = chars_of(t);
    if first.len() == 0 || first[0] == '#' {
        return Line::Skipped;
    }
    match split_once(t, ':') {
        Some((name, version)) => {
            let name = trim_of(name);
            if name.unicode_len() == 0 {
                Line::Nameless
            } else {
                Line::Entry(
                    ManifestEntry {
                        name: name.to_owned(),
                        version_spec: Some(trim_of(version).to_owned()),
                    },
                )
            }
        },
        None => Line::Entry(ManifestEntry { name: t.to_owned(), version_spec: None }),
    }
}

impl Manifest {
    /// Where the manifest lies by default: `micasa/micasa.txt` under
    /// `xdg_config_home`, or under `.config` in `home` where the former is
    /// not set. With neither there is no such place.
    pub fn get_default_path(xdg_config_home: Option<&str>, home: Option<&str>) -> (r: Result<
        String,
        MicasaError,
    >)
        ensures
            match r {
                Ok(path) => match xdg_config_home {
                    Some(dir) => path@ == crate::text::join_path(
                        crate::text::join_path(dir@, "micasa"@),
                        "micasa.txt"@,
                    ),
                    None => home is Some && path@ == crate::text::join_path(
                        crate::text::join_path(
                            crate::text::join_path(home.unwrap()@, ".config"@),
                            "micasa"@,
                        ),
                        "micasa.txt"@,
                    ),
                },
                Err(e) => xdg_config_home is None && home is None && e@
                    == ErrorView::ManifestNotFound("Unable to determine home directory"@),
            },
    {
        let config_dir = match xdg_config_home {
            Some(dir) => dir.to_owned(),
            None => match home {
                Some(home) => crate::text::join_path_of(home, ".config"),
                None => {
                    return Err(
                        MicasaError::ManifestNotFound(
                            "Unable to determine home directory".to_owned(),
                        ),
                    );
                },
            },
        };
        let dir = crate::text::join_path_of(config_dir.as_str(), "micasa");
        Ok(crate::text::join_path_of(dir.as_str(), "micasa.txt"))
    }

    /// The manifest at `path`, whose text is `content`; `None` where the file
    /// could not be read.
    pub fn read_from_path(path: &str, content: Option<&str>) -> (r: Result<Self, MicasaError>)
        ensures
            match r {
                Ok(manifest) => content is Some && parsed(content.unwrap()@) == Ok::<
                    Seq<ManifestEntryView>,
                    ErrorView,
                >(manifest@),
                Err(e) => match content {
                    Some(text) => parsed(text@) == Err::<Seq<ManifestEntryView>, ErrorView>(e@),
                    None => e@ == ErrorView::ManifestNotFound(path@),
                },
            },
    {
        match content {
            None => Err(MicasaError::ManifestNotFound(path.to_owned())),
            Some(text) => match Self::parse_content(text) {
                Ok(entries) => Ok(Manifest { entries }),
                Err(e) => Err(e),
            },
        }
    }

    /// The entries that the manifest text `content` lists, in order. A line
    /// with a colon and no name before it is an error that gives the line's
    /// number.
    pub fn parse_content(content: &str) -> (r: Result<Vec<ManifestEntry>, MicasaError>)
        ensures
            parsed_view(r) == parsed(content@),
    {
        let all = lines_of(content);
        let mut entries: Vec<ManifestEntry> = Vec::new();
        let mut i: usize = 0;
        assert(views_of(all@).skip(0) =~= views_of(all@));
        assert(entry_views(entries@) + Seq::<ManifestEntryView>::empty() =~= entry_views(
            entries@,
        ));
        assert(entry_views(entries@) =~= Seq::<ManifestEntryView>::empty());
        while i < all.len()
            invariant
                i <= all.len(),
                views_of(all@) == lines(content@),
                parsed(content@) == after(
                    entry_views(entries@),
                    read_lines(views_of(all@).skip(i as int), (i + 1) as nat),
                ),
            decreases all.len() - i,
        {
            let ghost rest = views_of(all@).skip(i as int);
            let ghost before = entry_views(entries@);
            assert(rest[0] == all@[i as int]@);
            assert(rest.drop_first() =~= views_of(all@).skip(i + 1));
            match read(all[i]) {
                Line::Skipped => {},
                Line::Entry(entry) => {
                    let ghost e = entry@;
                    entries.push(entry);
                    proof {
                        assert(entry_views(entries@) =~= before + seq![e]);
                        let tail = read_lines(rest.drop_first(), (i + 2) as nat);
                        match tail {
                            Ok(more) => {
                                assert(before + (seq![e] + more) =~= (before + seq![e]) + more);
                            },
                            Err(_) => {},
                        }
                    }
                },
                Line::Nameless => {
                    let number = decimal_of((i + 1) as u64);
                    return Err(
                        MicasaError::ManifestParseError(
                            concat("Empty package name on line ", number.as_str()),
                        ),
                    );
                },
            }
            i += 1;
        }
        assert(entry_views(entries@) + Seq::<ManifestEntryView>::empty() =~= entry_views(
            entries@,
        ));
        Ok(entries)
    }

    /// The entries, in the order of the manifest.
    pub fn entries(&self) -> (out: &[ManifestEntry])
        ensures
            entry_views(out@) == self@,
    {
        self.entries.as_slice()
    }

    /// Whether the manifest lists nothing.
    pub fn is_empty(&self) -> (b: bool)
        ensures
            b == (self@.len() == 0),
    {
        self.entries.is_empty()
    }
}

} // verus!
