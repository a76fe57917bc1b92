//! The command builder: from a job request to the argument list of the
//! archiver, or to the reason why the request is refused.

use crate::event::Mode;
use crate::preset::CompressionPreset;
use crate::text::{optional_text, same_text, texts, texts_of};
use vstd::prelude::*;

verus! {

/// One selected path, with what the file system said of it when it was
/// selected.
#[derive(Clone, Debug, PartialEq, Eq)]
pub struct Source {
    pub path: String,
    pub on_disk: bool,
}

/// One invocation of the archiver, as the user asked for it.  The
/// destination is the archive to write when compressing, and the directory
/// to fill when extracting.
#[derive(Clone, Debug, PartialEq, Eq)]
pub struct JobRequest {
    pub mode: Mode,
    pub sources: Vec<Source>,
    pub destination: String,
    pub preset: CompressionPreset,
}

/// Why a request is refused before anything is started.
#[derive(Clone, Debug, PartialEq, Eq)]
pub enum ValidationError {
    /// Another job is still running.
    Busy,
    /// The archiver is not where it is expected.
    ToolMissing,
    /// Nothing is selected to be compressed.
    NoSources,
    /// The archive to write has no file name.
    InvalidOutput,
    /// To extract, exactly one archive must be selected.
    WrongSelectionCount,
    /// The archive to extract is not on disk.
    ArchiveMissing { archive: String },
}

/// The archiver's program and arguments for an accepted request.
#[derive(Clone, Debug, PartialEq, Eq)]
pub struct LaunchCommand {
    pub program: String,
    pub arguments: Vec<String>,
    pub mode: Mode,
}

/// The mathematical value of a [`Source`].
pub struct SourceView {
    pub path: Seq<char>,
    pub on_disk: bool,
}

/// The mathematical value of a [`JobRequest`].
pub struct JobRequestView {
    pub mode: Mode,
    pub sources: Seq<SourceView>,
    pub destination: Seq<char>,
    pub preset: CompressionPreset,
}

/// The mathematical value of a [`ValidationError`].
pub enum ValidationErrorView {
    Busy,
    ToolMissing,
    NoSources,
    InvalidOutput,
    WrongSelectionCount,
    ArchiveMissing { archive: Seq<char> },
}

/// The mathematical value of a [`LaunchCommand`].
pub struct LaunchCommandView {
    pub program: Seq<char>,
    pub arguments: Seq<Seq<char>>,
    pub mode: Mode,
}

/// The values of a list of sources, in order.
pub open spec fn source_views(items: Seq<Source>) -> Seq<SourceView> {
    Seq::new(items.len(), |i: int| items[i]@)
}

/// The paths of a list of sources, in order.
pub open spec fn source_paths(items: Seq<SourceView>) -> Seq<Seq<char>> {
    Seq::new(items.len(), |i: int| items[i].path)
}

impl View for Source {
    type V = SourceView;

    open spec fn view(&self) -> SourceView {
        SourceView { path: self.path@, on_disk: self.on_disk }
    }
}

impl View for JobRequest {
    type V = JobRequestView;

    open spec fn view(&self) -> JobRequestView {
        JobRequestView {
            mode: self.mode,
            sources: source_views(self.sources@),
            destination: self.destination@,
            preset: self.preset,
        }
    }
}

impl View for ValidationError {
    type V = ValidationErrorView;

    open spec fn view(&self) -> ValidationErrorView {
        match self {
            ValidationError::Busy => ValidationErrorView::Busy,
            ValidationError::ToolMissing => ValidationErrorView::ToolMissing,
            ValidationError::NoSources => ValidationErrorView::NoSources,
            ValidationError::InvalidOutput => ValidationErrorView::InvalidOutput,
            ValidationError::WrongSelectionCount => ValidationErrorView::WrongSelectionCount,
            ValidationError::ArchiveMissing { archive } => ValidationErrorView::ArchiveMissing {
                archive: archive@,
            },
        }
    }
}

impl View for LaunchCommand {
    type V = LaunchCommandView;

    open spec fn view(&self) -> LaunchCommandView {
        LaunchCommandView {
            program: self.program@,
            arguments: texts(self.arguments@),
            mode: self.mode,
        }
    }
}

/// The final component of a path, as `std::path::Path::file_name` gives it
/// on the platform that the library is built for.
pub uninterp spec fn path_file_name(path: Seq<char>) -> Option<Seq<char>>;

/// The extension of a path's file name, as `std::path::Path::extension`
/// gives it on the platform that the library is built for.
pub uninterp spec fn path_extension(path: Seq<char>) -> Option<Seq<char>>;

/// A path without a leading base, as `std::path::Path::strip_prefix` gives
/// it on the platform that the library is built for; `None` where the path
/// does not start with the base.
pub uninterp spec fn path_strip_prefix(path: Seq<char>, base: Seq<char>) -> Option<Seq<char>>;

/// The arguments that compress `sources` into `output`.
pub open spec fn compress_arguments(
    output: Seq<char>,
    sources: Seq<Seq<char>>,
    preset: CompressionPreset,
    self_extracting: bool,
) -> Seq<Seq<char>> {
    let fixed = seq!["a"@, output] + sources + preset.flag_texts();
    if self_extracting {
        fixed.push("-sfx"@)
    } else {
        fixed
    }
}

/// The arguments that extract `archive` into `destination`, overwriting
/// without a prompt.
pub open spec fn extract_arguments(archive: Seq<char>, destination: Seq<char>) -> Seq<
    Seq<char>,
> {
    seq!["x"@, archive, "-dp"@ + destination, "-o+"@, "-y"@]
}

/// Whether an extension marks a self-extracting archive.
pub open spec fn marks_self_extracting(extension: Option<Seq<char>>) -> bool {
    extension == Some("sfx"@)
}

/// What the command builder answers to a request, given the file name and
/// the extension of its destination.
pub open spec fn planned_arguments(
    request: JobRequestView,
    file_name: Option<Seq<char>>,
    extension: Option<Seq<char>>,
) -> Result<Seq<Seq<char>>, ValidationErrorView> {
    match request.mode {
        Mode::Compress => {
            if request.sources.len() == 0 {
                Err(ValidationErrorView::NoSources)
            } else if file_name is None {
                Err(ValidationErrorView::InvalidOutput)
            } else {
                Ok(
                    compress_arguments(
                        request.destination,
                        source_paths(request.sources),
                        request.preset,
                        marks_self_extracting(extension),
                    ),
                )
            }
        },
        Mode::Extract => {
            if request.sources.len() != 1 {
                Err(ValidationErrorView::WrongSelectionCount)
            } else if !request.sources[0].on_disk {
                Err(ValidationErrorView::ArchiveMissing { archive: request.sources[0].path })
            } else {
                Ok(extract_arguments(request.sources[0].path, request.destination))
            }
        },
    }
}

/// The answer of the command builder as a mathematical value.
pub open spec fn arguments_view(answer: Result<Vec<String>, ValidationError>) -> Result<
    Seq<Seq<char>>,
    ValidationErrorView,
> {
    match answer {
        Ok(arguments) => Ok(texts(arguments@)),
        Err(error) => Err(error@),
    }
}

/// A path as the archiver gets it: relative to the base where it lies under
/// it, unchanged otherwise.
pub open spec fn relative_text(path: Seq<char>, base: Seq<char>) -> Seq<char> {
    match path_strip_prefix(path, base) {
        Some(rest) => rest,
        None => path,
    }
}

/// Calls `std::path::Path::file_name` on the path and hands back the final
/// component as text, or `None` where the path has none.  The contract
/// claims that the answer is settled by the text of the path: the call
/// reads the text by the platform's path syntax and asks nothing of the
/// file system.
#[verifier::external_body]
pub(crate) fn file_name_of(path: &str) -> (name: Option<String>)
    ensures
        optional_text(name) == path_file_name(path@),
{
    std::path::Path::new(path).file_name().map(|name| name.to_string_lossy().into_owned())
}

/// Calls `std::path::Path::extension` on the path and hands back the
/// extension of the file name as text, or `None` where there is none.  The
/// contract claims that the answer is settled by the text of the path.
#[verifier::external_body]
pub(crate) fn extension_of(path: &str) -> (extension: Option<String>)
    ensures
        optional_text(extension) == path_extension(path@),
{
    std::path::Path::new(path).extension().map(|ext| ext.to_string_lossy().into_owned())
}

/// Calls `std::path::Path::strip_prefix` on the path and hands back the rest
/// as text, or `None` where the call gives an error because the path does
/// not start with the base.  The contract claims that the answer is
/// settled by the two texts.
#[verifier::external_body]
fn strip_prefix_of(path: &str, base: &str) -> (rest: Option<String>)
    ensures
        optional_text(rest) == path_strip_prefix(path@, base@),
{
    match std::path::Path::new(path).strip_prefix(std::path::Path::new(base)) {
        Ok(rest) => Some(rest.to_string_lossy().into_owned()),
        Err(_) => None,
    }
}

/// Appends copies of the given texts to a list of arguments.
fn push_all(arguments: &mut Vec<String>, items: &Vec<&'static str>)
    ensures
        texts(final(arguments)@) == texts(old(arguments)@) + texts_of(items@),
{
    let ghost start = texts(arguments@);
    let mut i: usize = 0;
    while i < items.len()
        invariant
            i <= items.len(),
            texts(arguments@) == start + texts_of(items@).take(i as int),
        decreases items.len() - i,
    {
        let ghost before = texts(arguments@);
        arguments.push(String::from_str(items[i]));
        assert(texts(arguments@) =~= before.push(texts_of(items@)[i as int]));
        i += 1;
    }
}

/// The arguments that compress the sources into `output` with the preset's
/// flags, and with the self-extraction flag behind them where it is asked
/// for.
pub fn build_compress_arguments(
    output: &str,
    sources: &Vec<Source>,
    preset: CompressionPreset,
    self_extracting: bool,
) -> (arguments: Vec<String>)
    ensures
        texts(arguments@) == compress_arguments(
            output@,
            source_paths(source_views(sources@)),
            preset,
            self_extracting,
        ),
{
    let mut arguments: Vec<String> = Vec::new();
    arguments.push(String::from_str("a"));
    arguments.push(String::from_str(output));
    let ghost head = texts(arguments@);
    assert(head =~= seq!["a"@, output@]);
    let ghost paths = source_paths(source_views(sources@));
    let mut i: usize = 0;
    while i < sources.len()
        invariant
            i <= sources.len(),
            paths == source_paths(source_views(sources@)),
            texts(arguments@) == head + paths.take(i as int),
        decreases sources.len() - i,
    {
        let ghost before = texts(arguments@);
        arguments.push(sources[i].path.clone());
        assert(texts(arguments@) =~= before.push(paths[i as int]));
        i += 1;
    }
    assert(paths.take(sources.len() as int) =~= paths);
    let flags = preset.flags();
    push_all(&mut arguments, &flags);
    if self_extracting {
        arguments.push(String::from_str("-sfx"));
    }
    arguments
}

/// The arguments that extract `archive` into `destination`.
pub fn build_extract_arguments(archive: &str, destination: &str) -> (arguments: Vec<String>)
    ensures
        texts(arguments@) == extract_arguments(archive@, destination@),
{
    let mut arguments: Vec<String> = Vec::new();
    arguments.push(String::from_str("x"));
    arguments.push(String::from_str(archive));
    let mut target = String::from_str("-dp");
    target.append(destination);
    arguments.push(target);
    arguments.push(String::from_str("-o+"));
    arguments.push(String::from_str("-y"));
    arguments
}

/// Checks a request and builds its arguments, given the file name and the
/// extension of its destination.
pub fn plan_arguments(
    request: &JobRequest,
    file_name: &Option<String>,
    extension: &Option<String>,
) -> (answer: Result<Vec<String>, ValidationError>)
    ensures
        arguments_view(answer) == planned_arguments(
            request@,
            optional_text(*file_name),
            optional_text(*extension),
        ),
{
    match request.mode {
        Mode::Compress => {
            if request.sources.len() == 0 {
                Err(ValidationError::NoSources)
            } else if file_name.is_none() {
                Err(ValidationError::InvalidOutput)
            } else {
                let self_extracting = match extension {
                    Some(ext) => same_text(ext.as_str(), "sfx"),
                    None => false,
                };
                Ok(
                    build_compress_arguments(
                        request.destination.as_str(),
                        &request.sources,
                        request.preset,
                        self_extracting,
                    ),
                )
            }
        },
        Mode::Extract => {
            if request.sources.len() != 1 {
                Err(ValidationError::WrongSelectionCount)
            } else if !request.sources[0].on_disk {
                Err(ValidationError::ArchiveMissing { archive: request.sources[0].path.clone() })
            } else {
                Ok(
                    build_extract_arguments(
                        request.sources[0].path.as_str(),
                        request.destination.as_str(),
                    ),
                )
            }
        },
    }
}

/// Checks a request and builds its arguments.  The file name and the
/// extension of the destination are those that the standard library's path
/// functions give.
pub fn build_arguments(request: &JobRequest) -> (answer: Result<Vec<String>, ValidationError>)
    ensures
        arguments_view(answer) == planned_arguments(
            request@,
            path_file_name(request.destination@),
            path_extension(request.destination@),
        ),
{
    let file_name = file_name_of(request.destination.as_str());
    let extension = extension_of(request.destination.as_str());
    plan_arguments(request, &file_name, &extension)
}

/// A selected path as the archiver gets it, given what is left of it
/// without the working directory in front.
pub fn relative_path(path: &String, stripped: Option<String>) -> (relative: String)
    ensures
        relative@ == match stripped {
            Some(rest) => rest@,
            None => path@,
        },
{
    match stripped {
        Some(rest) => rest,
        None => path.clone(),
    }
}

/// The selected paths as the archiver gets them: each relative to the
/// working directory where it lies under it, and unchanged otherwise.
pub fn relative_sources(selected: &Vec<Source>, current_dir: &str) -> (sources: Vec<Source>)
    ensures
        sources@.len() == selected@.len(),
        forall|i: int|
            0 <= i < selected@.len() ==> #[trigger] sources@[i]@ == (SourceView {
                path: relative_text(selected@[i].path@, current_dir@),
                on_disk: selected@[i].on_disk,
            }),
{
    let mut sources: Vec<Source> = Vec::new();
    let mut i: usize = 0;
    while i < selected.len()
        invariant
            i <= selected.len(),
            sources@.len() == i,
            forall|k: int|
                0 <= k < i ==> #[trigger] sources@[k]@ == (SourceView {
                    path: relative_text(selected@[k].path@, current_dir@),
                    on_disk: selected@[k].on_disk,
                }),
        decreases selected.len() - i,
    {
        let stripped = strip_prefix_of(selected[i].path.as_str(), current_dir);
        let path = relative_path(&selected[i].path, stripped);
        sources.push(Source { path, on_disk: selected[i].on_disk });
        i += 1;
    }
    sources
}

/// Where the archiver is expected, relative to the working directory, by
/// platform.
pub open spec fn tool_text(windows: bool) -> Seq<char> {
    if windows {
        ".\\FreeArc\\arc.exe"@
    } else {
        "./FreeArc/bin/arc"@
    }
}

/// Where the archiver is expected, relative to the working directory.
pub fn tool_path(windows: bool) -> (path: &'static str)
    ensures
        path@ == tool_text(windows),
{
    if windows {
        ".\\FreeArc\\arc.exe"
    } else {
        "./FreeArc/bin/arc"
    }
}

/// The layout of the arguments of a compression: the archiver's command,
/// then the output, then the sources in order, then the preset's flags in
/// order, and nothing else but the self-extraction flag.
pub proof fn lemma_compress_layout(
    output: Seq<char>,
    sources: Seq<Seq<char>>,
    preset: CompressionPreset,
    self_extracting: bool,
)
    ensures
        ({
            let arguments = compress_arguments(output, sources, preset, self_extracting);
            let flags = preset.flag_texts();
            let n = sources.len() as int;
            let k = flags.len() as int;
            &&& arguments.len() == 2 + n + k + if self_extracting {
                1int
            } else {
                0int
            }
            &&& arguments[0] == "a"@
            &&& arguments[1] == output
            &&& arguments.subrange(2, 2 + n) == sources
            &&& arguments.subrange(2 + n, 2 + n + k) == flags
            &&& self_extracting ==> arguments.last() == "-sfx"@
        }),
{
    let arguments = compress_arguments(output, sources, preset, self_extracting);
    let flags = preset.flag_texts();
    let n = sources.len() as int;
    let k = flags.len() as int;
}

/// A compression without a source is refused, whatever its destination.
pub proof fn lemma_empty_compress_refused(
    request: JobRequestView,
    file_name: Option<Seq<char>>,
    extension: Option<Seq<char>>,
)
    requires
        request.mode == Mode::Compress,
        request.sources.len() == 0,
    ensures
        planned_arguments(request, file_name, extension) == Err::<
            Seq<Seq<char>>,
            ValidationErrorView,
        >(ValidationErrorView::NoSources),
{
}

/// An extraction is accepted exactly when one archive is selected and it is
/// on disk; a missing archive is refused by name.
pub proof fn lemma_extract_validation(
    request: JobRequestView,
    file_name: Option<Seq<char>>,
    extension: Option<Seq<char>>,
)
    requires
        request.mode == Mode::Extract,
    ensures
        planned_arguments(request, file_name, extension) is Ok <==> request.sources.len() == 1
            && request.sources[0].on_disk,
        request.sources.len() == 1 && !request.sources[0].on_disk ==> planned_arguments(
            request,
            file_name,
            extension,
        ) == Err::<Seq<Seq<char>>, ValidationErrorView>(
            ValidationErrorView::ArchiveMissing { archive: request.sources[0].path },
        ),
{
}

} // verus!
