//! The connector for apt (Debian, Ubuntu): how its commands are worded, what
//! their output says, and when a failed command is tried again with
//! elevated privileges.

use crate::error::{ErrorView, MicasaError};
use crate::text::{
    chars_of, contains, contains_str, join, join_strings, lines, lines_of, position, split_once,
    starts_with, str_eq, strip_prefix, trim, trim_of, views_of,
};
use vstd::prelude::*;

verus! {

/// What the last line of `lines` that carries `label` says after it, where
/// that is not `(none)`. Whitespace around the line and around the value
/// does not count.
pub open spec fn policy_field(lines: Seq<Seq<char>>, label: Seq<char>) -> Option<Seq<char>>
    decreases lines.len(),
{
    if lines.len() == 0 {
        None
    } else {
        let t = trim(lines.last());
        if label.is_prefix_of(t) && trim(t.skip(label.len() as int)) != "(none)"@ {
            Some(trim(t.skip(label.len() as int)))
        } else {
            policy_field(lines.drop_last(), label)
        }
    }
}

/// The text between the first colon of `line` and its second, or its end.
pub open spec fn second_field(line: Seq<char>) -> Seq<char> {
    if position(line, ':') < line.len() {
        let rest = line.skip(position(line, ':') + 1);
        rest.take(position(rest, ':'))
    } else {
        Seq::empty()
    }
}

/// Whether `line` opens a description.
pub open spec fn opens_description(line: Seq<char>) -> bool {
    "Description:"@.is_prefix_of(line) || "Description-en:"@.is_prefix_of(line)
}

/// Whether `line` continues the description before it: it is indented.
pub open spec fn continues_description(line: Seq<char>) -> bool {
    line.len() > 0 && (line[0] == ' ' || line[0] == '\t')
}

/// The pieces of the description in `lines`: what each opening line says in
/// its second field, if anything, and each indented line that follows one.
/// The first other line after an opening line ends the description.
/// `started` says whether an opening line came before `lines`.
pub open spec fn description_pieces(lines: Seq<Seq<char>>, started: bool) -> Seq<Seq<char>>
    decreases lines.len(),
{
    if lines.len() == 0 {
        Seq::empty()
    } else if opens_description(lines[0]) {
        if trim(second_field(lines[0])).len() > 0 {
            seq![trim(second_field(lines[0]))] + description_pieces(lines.drop_first(), true)
        } else {
            description_pieces(lines.drop_first(), true)
        }
    } else if !started {
        description_pieces(lines.drop_first(), false)
    } else if continues_description(lines[0]) {
        seq![trim(lines[0])] + description_pieces(lines.drop_first(), true)
    } else {
        Seq::empty()
    }
}

/// The description that the output of `apt-cache show` gives: its pieces,
/// with single spaces between them.
pub open spec fn shown_description(output: Seq<char>) -> Option<Seq<char>> {
    let pieces = description_pieces(lines(output), false);
    if pieces.len() == 0 {
        None
    } else {
        Some(join(pieces, " "@))
    }
}

/// Whether a failure of apt looks like a lack of privileges or a held lock:
/// the command ran, failed, and said so on its error stream. No more than a
/// guess from the wording.
pub open spec fn wants_elevation(failure: ErrorView) -> bool {
    match failure {
        ErrorView::CommandFailed { status, stderr } => contains(stderr, "permission"@) || contains(
            stderr,
            "not permitted"@,
        ) || contains(stderr, "lock file"@),
        _ => false,
    }
}

/// The apt connector.
#[derive(Debug, Clone, Copy)]
pub struct AptWrapper;

impl AptWrapper {
    pub fn new() -> (out: Self)
        ensures
            out == AptWrapper,
    {
        AptWrapper
    }

    /// The connector's identifier.
    pub fn name(&self) -> (out: &'static str)
        ensures
            out@ == "apt"@,
    {
        "apt"
    }

    /// The installed version and the candidate version that the output of
    /// `apt-cache policy` gives.
    pub fn parse_policy_output(&self, output: &str) -> (out: (Option<String>, Option<String>))
        ensures
            out.0.deep_view() == policy_field(lines(output@), "Installed:"@),
            out.1.deep_view() == policy_field(lines(output@), "Candidate:"@),
    {
        let all = lines_of(output);
        let mut installed: Option<String> = None;
        let mut available: Option<String> = None;
        let mut i: usize = 0;
        assert(views_of(all@).take(0) =~= Seq::<Seq<char>>::empty());
        while i < all.len()
            invariant
                i <= all.len(),
                installed.deep_view() == policy_field(views_of(all@).take(i as int), "Installed:"@),
                available.deep_view() == policy_field(views_of(all@).take(i as int), "Candidate:"@),
            decreases all.len() - i,
        {
            assert(views_of(all@).take(i + 1).drop_last() =~= views_of(all@).take(i as int));
            assert(views_of(all@).take(i + 1).last() == all@[i as int]@);
            let t = trim_of(all[i]);
            match strip_prefix(t, "Installed:") {
                Some(rest) => {
                    let version = trim_of(rest);
                    if !str_eq(version, "(none)") {
                        installed = Some(version.to_owned());
                    }
                },
                None => {},
            }
            match strip_prefix(t, "Candidate:") {
                Some(rest) => {
                    let version = trim_of(rest);
                    if !str_eq(version, "(none)") {
                        available = Some(version.to_owned());
                    }
                },
                None => {},
            }
            i += 1;
        }
        assert(views_of(all@).take(i as int) =~= views_of(all@));
        (installed, available)
    }

    /// The description that the output of `apt-cache show` gives.
    pub fn parse_show_output(&self, output: &str) -> (out: Option<String>)
        ensures
            out.deep_view() == shown_description(output@),
    {
        let all = lines_of(output);
        let mut pieces: Vec<String> = Vec::new();
        let mut started = false;
        let mut i: usize = 0;
        assert(views_of(all@).skip(0) =~= views_of(all@));
        assert(pieces.deep_view() =~= Seq::<Seq<char>>::empty());
        assert(pieces.deep_view() + description_pieces(views_of(all@), false)
            =~= description_pieces(views_of(all@), false));
        while i < all.len()
            invariant_except_break
                i <= all.len(),
                pieces.deep_view() + description_pieces(views_of(all@).skip(i as int), started)
                    == description_pieces(views_of(all@), false),
            ensures
                pieces.deep_view() == description_pieces(views_of(all@), false),
            decreases all.len() - i,
        {
            let ghost rest = views_of(all@).skip(i as int);
            let ghost before = pieces.deep_view();
            assert(rest[0] == all@[i as int]@);
            assert(rest.drop_first() =~= views_of(all@).skip(i + 1));
            let line = all[i];
            if starts_with(line, "Description:") || starts_with(line, "Description-en:") {
                let field = second_field_of(line);
                let piece = trim_of(field);
                if piece.unicode_len() > 0 {
                    pieces.push(piece.to_owned());
                    assert(pieces.deep_view() =~= before + seq![piece@]);
                    assert(pieces.deep_view() + description_pieces(rest.drop_first(), true)
                        =~= before + description_pieces(rest, started));
                }
                started = true;
            } else if started {
                let x = chars_of(line);
                if x.len() > 0 && (x[0] == ' ' || x[0] == '\t') {
                    let piece = trim_of(line);
                    pieces.push(piece.to_owned());
                    assert(pieces.deep_view() =~= before + seq![piece@]);
                    assert(pieces.deep_view() + description_pieces(rest.drop_first(), true)
                        =~= before + description_pieces(rest, started));
                } else {
                    assert(before + description_pieces(rest, started) =~= before);
                    break ;
                }
            }
            i += 1;
        }
        proof {
            if i == all.len() {
                assert(views_of(all@).skip(i as int) =~= Seq::<Seq<char>>::empty());
                assert(pieces.deep_view() + Seq::<Seq<char>>::empty() =~= pieces.deep_view());
            }
        }
        if pieces.len() == 0 {
            None
        } else {
            Some(join_strings(&pieces, " "))
        }
    }

    /// Whether a failed command is to be tried again with elevated
    /// privileges: its failure looks like a lack of them, and the host has a
    /// way to elevate.
    pub fn retries_elevated(&self, failure: &MicasaError, can_elevate: bool) -> (b: bool)
        ensures
            b == (can_elevate && wants_elevation(failure@)),
    {
        if !can_elevate {
            return false;
        }
        match failure {
            MicasaError::CommandFailed { status: _, stderr } => contains_str(
                stderr.as_str(),
                "permission",
            ) || contains_str(stderr.as_str(), "not permitted") || contains_str(
                stderr.as_str(),
                "lock file",
            ),
            _ => false,
        }
    }

    /// The words of the command that installs (`remove` false) or removes
    /// `package_name`, with or without elevated privileges.
    pub fn command(&self, remove: bool, package_name: &str, elevated: bool) -> (out: Vec<String>)
        ensures
            out.deep_view() == (if elevated {
                seq!["sudo"@]
            } else {
                Seq::<Seq<char>>::empty()
            }) + seq![
                "apt-get"@,
                if remove {
                    "remove"@
                } else {
                    "install"@
                },
                "-y"@,
                package_name@,
            ],
    {
        let mut out: Vec<String> = Vec::new();
        if elevated {
            out.push("sudo".to_owned());
        }
        out.push("apt-get".to_owned());
        if remove {
            out.push("remove".to_owned());
        } else {
            out.push("install".to_owned());
        }
        out.push("-y".to_owned());
        out.push(package_name.to_owned());
        assert(out.deep_view() =~= (if elevated {
            seq!["sudo"@]
        } else {
            Seq::<Seq<char>>::empty()
        }) + seq![
            "apt-get"@,
            if remove {
                "remove"@
            } else {
                "install"@
            },
            "-y"@,
            package_name@,
        ]);
        out
    }
}

/// The text between the first colon of `line` and its second, or its end.
pub fn second_field_of<'a>(line: &'a str) -> (out: &'a str)
    ensures
        out@ == second_field(line@),
{
    match split_once(line, ':') {
        Some((_, rest)) => match split_once(rest, ':') {
            Some((field, _)) => field,
            None => {
                assert(rest@.take(rest@.len() as int) =~= rest@);
                rest
            },
        },
        None => {
            let none = line.substring_char(0, 0);
            assert(none@ =~= Seq::<char>::empty());
            none
        },
    }
}

} // verus!
