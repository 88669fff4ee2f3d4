//! Telling what a source path holds: a built component, or a project in one
//! of the languages that can be compiled to one.

use crate::paths::{
    extension, extension_of, is_blank, lemma_blank_head, lemma_blank_step, lemma_blank_tail,
};
use glob::Pattern;
use vstd::prelude::*;

verus! {

/// What a source path can hold.
#[derive(Clone, Copy, Debug, PartialEq, Eq, Structural)]
pub enum CodeLanguages {
    Python,
    JavaScript,
    TypeScript,
    Wasm,
}

/// Why a source path holds nothing that can be processed.
#[derive(Clone, Copy, Debug, PartialEq, Eq, Structural)]
pub enum Rejection {
    /// The path has an extension, and it is not that of a component.
    NotAComponent,
    /// The path has no extension, so it is taken for a directory, and no
    /// source file of a known language was found below it.
    NoSources,
}

/// One step of detection: what is known, or what has to be looked up next.
#[derive(Debug, PartialEq, Eq)]
pub enum Detection {
    /// Count the files that match `pattern`: they are sources in `language`.
    Scan { language: CodeLanguages, pattern: String },
    Found(CodeLanguages),
    Unsupported(Rejection),
}

/// `ext` is the extension of a component, in any mix of upper and lower case.
pub open spec fn names_component(ext: Seq<char>) -> bool {
    &&& ext.len() == 4
    &&& (ext[0] == 'w' || ext[0] == 'W')
    &&& (ext[1] == 'a' || ext[1] == 'A')
    &&& (ext[2] == 's' || ext[2] == 'S')
    &&& (ext[3] == 'm' || ext[3] == 'M')
}

/// The language of `path`, where `python_files` and `javascript_files` are
/// the numbers of source files of each kind found below it. An extension
/// decides alone. Without one, Python ranks before JavaScript.
pub open spec fn language_of(path: Seq<char>, python_files: nat, javascript_files: nat) -> Result<
    CodeLanguages,
    Rejection,
> {
    match extension(path) {
        Some(ext) => if names_component(ext) {
            Ok(CodeLanguages::Wasm)
        } else {
            Err(Rejection::NotAComponent)
        },
        None => if python_files > 0 {
            Ok(CodeLanguages::Python)
        } else if javascript_files > 0 {
            Ok(CodeLanguages::JavaScript)
        } else {
            Err(Rejection::NoSources)
        },
    }
}

/// A character that a glob pattern does not take for itself.
pub open spec fn is_metachar(c: char) -> bool {
    c == '?' || c == '*' || c == '[' || c == ']'
}

/// `s` as a glob pattern that matches `s` and nothing else: each
/// metacharacter stands between brackets.
pub open spec fn escaped(s: Seq<char>) -> Seq<char>
    decreases s.len(),
{
    if s.len() == 0 {
        Seq::empty()
    } else if is_metachar(s.last()) {
        escaped(s.drop_last()) + seq!['[', s.last(), ']']
    } else {
        escaped(s.drop_last()).push(s.last())
    }
}

/// The glob pattern for the sources in `language` below `path`, at any
/// depth; only the languages that are looked for have one. The path stands
/// in it for itself, whatever characters it holds.
pub open spec fn pattern_for(path: Seq<char>, language: CodeLanguages) -> Option<Seq<char>> {
    match language {
        CodeLanguages::Python => Some(escaped(path) + "/**/*.py"@),
        CodeLanguages::JavaScript => Some(escaped(path) + "/**/*.js"@),
        _ => None,
    }
}

/// `glob::Pattern::escape`: the text with each of `?`, `*`, `[` and `]`
/// put between brackets, and every other character as it is.
#[verifier::external_body]
pub(crate) fn escape(path: &str) -> (pattern: String)
    ensures
        pattern@ == escaped(path@),
{
    Pattern::escape(path)
}

/// The language that is looked for after `language` has not been found.
pub open spec fn ranked_after(language: CodeLanguages) -> Option<CodeLanguages> {
    match language {
        CodeLanguages::Python => Some(CodeLanguages::JavaScript),
        _ => None,
    }
}

/// A step of detection as plain values.
pub ghost enum DetectionView {
    Scan { language: CodeLanguages, pattern: Seq<char> },
    Found(CodeLanguages),
    Unsupported(Rejection),
}

impl View for Detection {
    type V = DetectionView;

    open spec fn view(&self) -> DetectionView {
        match self {
            Detection::Scan { language, pattern } => DetectionView::Scan {
                language: *language,
                pattern: pattern@,
            },
            Detection::Found(language) => DetectionView::Found(*language),
            Detection::Unsupported(why) => DetectionView::Unsupported(*why),
        }
    }
}

/// The step that looks for `language` below `path`, or the end of the search.
pub open spec fn scan_or_give_up(path: Seq<char>, language: Option<CodeLanguages>) -> DetectionView {
    match language {
        Some(l) if pattern_for(path, l) is Some => DetectionView::Scan {
            language: l,
            pattern: pattern_for(path, l)->0,
        },
        _ => DetectionView::Unsupported(Rejection::NoSources),
    }
}

/// The first step of detection on `path`.
pub open spec fn first_step(path: Seq<char>) -> DetectionView {
    match extension(path) {
        Some(ext) => if names_component(ext) {
            DetectionView::Found(CodeLanguages::Wasm)
        } else {
            DetectionView::Unsupported(Rejection::NotAComponent)
        },
        None => scan_or_give_up(path, Some(CodeLanguages::Python)),
    }
}

/// The step after `matches` files were found for `scanned`.
pub open spec fn next_step(path: Seq<char>, scanned: CodeLanguages, matches: nat) -> DetectionView {
    if matches > 0 {
        DetectionView::Found(scanned)
    } else {
        scan_or_give_up(path, ranked_after(scanned))
    }
}

/// Whether `ext` is the extension of a component.
pub fn is_component_extension(ext: &str) -> (yes: bool)
    ensures
        yes == names_component(ext@),
{
    if ext.unicode_len() != 4 {
        return false;
    }
    let c0 = ext.get_char(0);
    let c1 = ext.get_char(1);
    let c2 = ext.get_char(2);
    let c3 = ext.get_char(3);
    (c0 == 'w' || c0 == 'W') && (c1 == 'a' || c1 == 'A') && (c2 == 's' || c2 == 'S') && (c3 == 'm'
        || c3 == 'M')
}

/// The glob pattern for the sources in `language` below `path`.
pub fn scan_pattern(path: &str, language: CodeLanguages) -> (pattern: Option<String>)
    ensures
        match pattern {
            Some(p) => pattern_for(path@, language) == Some(p@),
            None => pattern_for(path@, language) is None,
        },
{
    match language {
        CodeLanguages::Python => Some(escape(path).concat("/**/*.py")),
        CodeLanguages::JavaScript => Some(escape(path).concat("/**/*.js")),
        _ => None,
    }
}

fn scan_for(path: &str, language: Option<CodeLanguages>) -> (step: Detection)
    ensures
        step@ == scan_or_give_up(path@, language),
{
    match language {
        Some(l) => match scan_pattern(path, l) {
            Some(pattern) => Detection::Scan { language: l, pattern },
            None => Detection::Unsupported(Rejection::NoSources),
        },
        None => Detection::Unsupported(Rejection::NoSources),
    }
}

/// Starts detection on `path`: its extension decides, and where it has none
/// the search for sources begins with the language of highest rank.
pub fn begin_detection(path: &str) -> (step: Detection)
    ensures
        step@ == first_step(path@),
{
    match extension_of(path) {
        Some(ext) => if is_component_extension(ext.as_str()) {
            Detection::Found(CodeLanguages::Wasm)
        } else {
            Detection::Unsupported(Rejection::NotAComponent)
        },
        None => scan_for(path, Some(CodeLanguages::Python)),
    }
}

/// Goes on after a scan for `scanned` found `matches` files: one file is
/// enough, and with none the next language is looked for.
pub fn continue_detection(path: &str, scanned: CodeLanguages, matches: usize) -> (step: Detection)
    ensures
        step@ == next_step(path@, scanned, matches as nat),
{
    if matches > 0 {
        Detection::Found(scanned)
    } else {
        let next = match scanned {
            CodeLanguages::Python => Some(CodeLanguages::JavaScript),
            _ => None,
        };
        scan_for(path, next)
    }
}

/// The language of `path`, given how many Python and JavaScript sources lie
/// below it.
pub fn figure_language(path: &str, python_files: usize, javascript_files: usize) -> (language:
    Result<CodeLanguages, Rejection>)
    ensures
        language == language_of(path@, python_files as nat, javascript_files as nat),
{
    match extension_of(path) {
        Some(ext) => if is_component_extension(ext.as_str()) {
            Ok(CodeLanguages::Wasm)
        } else {
            Err(Rejection::NotAComponent)
        },
        None => if python_files > 0 {
            Ok(CodeLanguages::Python)
        } else if javascript_files > 0 {
            Ok(CodeLanguages::JavaScript)
        } else {
            Err(Rejection::NoSources)
        },
    }
}

/// How many scans a step may still ask for, itself included.
pub open spec fn scans_left(step: DetectionView) -> nat {
    match step {
        DetectionView::Scan { language: CodeLanguages::Python, .. } => 2,
        DetectionView::Scan { .. } => 1,
        _ => 0,
    }
}

/// Where detection ends that stands at `step`, over a tree in which a scan
/// for a language finds `found(language)` files.
pub open spec fn settled(
    path: Seq<char>,
    step: DetectionView,
    found: spec_fn(CodeLanguages) -> nat,
) -> Result<CodeLanguages, Rejection>
    decreases scans_left(step),
{
    match step {
        DetectionView::Found(language) => Ok(language),
        DetectionView::Unsupported(why) => Err(why),
        DetectionView::Scan { language, .. } => {
            let next = next_step(path, language, found(language));
            if scans_left(next) < scans_left(step) {
                settled(path, next, found)
            } else {
                Err(Rejection::NoSources)
            }
        },
    }
}

/// Detection step by step ends where `language_of` says, whatever the scans
/// find.
pub proof fn lemma_steps_settle(path: Seq<char>, found: spec_fn(CodeLanguages) -> nat)
    ensures
        settled(path, first_step(path), found) == language_of(
            path,
            found(CodeLanguages::Python),
            found(CodeLanguages::JavaScript),
        ),
{
    reveal_with_fuel(settled, 3);
}

/// Detection repeats: over one path, two trees that hold sources of the
/// same languages end it alike, and so does one tree every time. How many
/// files a scan finds does not matter, only whether it finds one.
pub proof fn lemma_detection_repeats(
    path: Seq<char>,
    first: spec_fn(CodeLanguages) -> nat,
    second: spec_fn(CodeLanguages) -> nat,
)
    requires
        first(CodeLanguages::Python) > 0 <==> second(CodeLanguages::Python) > 0,
        first(CodeLanguages::JavaScript) > 0 <==> second(CodeLanguages::JavaScript) > 0,
    ensures
        settled(path, first_step(path), first) == settled(path, first_step(path), second),
{
    lemma_steps_settle(path, first);
    lemma_steps_settle(path, second);
}

/// Rank: below a path without an extension, one Python source decides for
/// Python, however many JavaScript sources lie beside it.
pub proof fn lemma_python_ranks_first(path: Seq<char>, python_files: nat, javascript_files: nat)
    requires
        extension(path) is None,
        python_files > 0,
    ensures
        language_of(path, python_files, javascript_files) == Ok::<CodeLanguages, Rejection>(
            CodeLanguages::Python,
        ),
{
}

/// A trailing separator, or a trailing `/.`, changes nothing.
pub proof fn lemma_language_ignores_blank_tail(
    path: Seq<char>,
    blank: Seq<char>,
    python_files: nat,
    javascript_files: nat,
)
    requires
        is_blank(blank),
    ensures
        language_of(path + seq!['/'] + blank, python_files, javascript_files) == language_of(
            path,
            python_files,
            javascript_files,
        ),
{
    lemma_blank_tail(path, blank);
}

/// A leading separator, or a leading `./`, changes nothing.
pub proof fn lemma_language_ignores_blank_head(
    blank: Seq<char>,
    path: Seq<char>,
    python_files: nat,
    javascript_files: nat,
)
    requires
        is_blank(blank),
    ensures
        language_of(blank + seq!['/'] + path, python_files, javascript_files) == language_of(
            path,
            python_files,
            javascript_files,
        ),
{
    lemma_blank_head(blank, path);
}

/// A doubled separator, or a `/./`, inside the path changes nothing.
pub proof fn lemma_language_ignores_blank_step(
    front: Seq<char>,
    blank: Seq<char>,
    back: Seq<char>,
    python_files: nat,
    javascript_files: nat,
)
    requires
        is_blank(blank),
    ensures
        language_of(
            front + seq!['/'] + blank + seq!['/'] + back,
            python_files,
            javascript_files,
        ) == language_of(front + seq!['/'] + back, python_files, javascript_files),
{
    lemma_blank_step(front, blank, back);
}

} // verus!
