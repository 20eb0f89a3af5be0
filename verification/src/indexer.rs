//! The index handle. Every operation has two sides: the call that is handed
//! to the engine, and the value returned to the host once the engine has
//! reported back. Running the engine lies with the caller; what is decided
//! here is what the engine is asked and what its report becomes.
use vstd::prelude::*;
use vstd::utf8::{encode_utf8, valid_utf8};
use crate::exception::{
    engine_failure,
    error_kind,
    error_prefix,
    invalid_filename,
    ExceptionView,
    Operation,
    PagefindException,
};
use crate::file::{host_file, EngineFile, EngineFileView, FileView, PhpPagefindFile};
use crate::response::{optional_text, PhpPagefindResponse, ResponseView};
use crate::service_config::{
    engine_options,
    EngineOptions,
    EngineOptionsView,
    PhpPagefindServiceConfig,
};

verus! {

/// What an [`EngineCall`] holds.
pub enum EngineCallView {
    AddHtmlFile { source_path: Option<Seq<char>>, url: Option<Seq<char>>, content: Seq<char> },
    AddDirectory { path: Seq<char>, pattern: Option<Seq<char>> },
    WriteFiles { output_directory: Option<Seq<char>> },
}

/// One request that the engine answers with a summary, with the arguments in
/// the engine's own shape. (A read of the built index takes no arguments.)
#[derive(Debug)]
pub enum EngineCall {
    AddHtmlFile { source_path: Option<String>, url: Option<String>, content: String },
    AddDirectory { path: String, pattern: Option<String> },
    WriteFiles { output_directory: Option<String> },
}

impl View for EngineCall {
    type V = EngineCallView;

    open spec fn view(&self) -> EngineCallView {
        match *self {
            EngineCall::AddHtmlFile { source_path, url, content } => EngineCallView::AddHtmlFile {
                source_path: optional_text(source_path),
                url: optional_text(url),
                content: content@,
            },
            EngineCall::AddDirectory { path, pattern } => EngineCallView::AddDirectory {
                path: path@,
                pattern: optional_text(pattern),
            },
            EngineCall::WriteFiles { output_directory } => EngineCallView::WriteFiles {
                output_directory: optional_text(output_directory),
            },
        }
    }
}

impl EngineCall {
    /// The request to index one document: the path and the URL are always
    /// supplied, the content goes as it is.
    pub fn add_html_file(source_path: String, url: String, content: String) -> (call: Self)
        ensures
            call@ == (EngineCallView::AddHtmlFile {
                source_path: Some(source_path@),
                url: Some(url@),
                content: content@,
            }),
    {
        EngineCall::AddHtmlFile { source_path: Some(source_path), url: Some(url), content }
    }

    /// The request to index a directory; the pattern stays optional and is
    /// not read here.
    pub fn add_directory(path: String, pattern: Option<String>) -> (call: Self)
        ensures
            call@ == (EngineCallView::AddDirectory {
                path: path@,
                pattern: optional_text(pattern),
            }),
    {
        EngineCall::AddDirectory { path, pattern }
    }

    /// The request to write the built index below `output_directory`, which
    /// is always supplied.
    pub fn write_files(output_directory: String) -> (call: Self)
        ensures
            call@ == (EngineCallView::WriteFiles { output_directory: Some(output_directory@) }),
    {
        EngineCall::WriteFiles { output_directory: Some(output_directory) }
    }
}

/// Whether `op` answers the host with a summarizing response.
pub open spec fn reports_summary(op: Operation) -> bool {
    op == Operation::AddHtmlFile || op == Operation::AddDirectory || op == Operation::WriteFiles
}

/// The words that open the message of a success of `op`.
pub open spec fn success_prefix(op: Operation) -> Seq<char>
    recommends
        reports_summary(op),
{
    match op {
        Operation::AddHtmlFile => "Successfully added HTML file: "@,
        Operation::AddDirectory => "Successfully added directory: "@,
        Operation::WriteFiles => "Successfully wrote files to: "@,
        _ => Seq::empty(),
    }
}

/// The message of a success of `op` on `subject`.
pub open spec fn success_message(op: Operation, subject: Seq<char>) -> Seq<char>
    recommends
        reports_summary(op),
{
    success_prefix(op) + subject
}

/// The `len` characters of `text` that start at `at`.
pub open spec fn window(text: Seq<char>, at: int, len: nat) -> Seq<char> {
    text.subrange(at, at + len)
}

/// Whether `part` occurs in `text` as a run of consecutive characters.
pub open spec fn occurs_in(part: Seq<char>, text: Seq<char>) -> bool {
    exists|at: int|
        0 <= at && at + part.len() <= text.len() && #[trigger] window(text, at, part.len()) == part
}

/// What the engine reported, with both texts as sequences of characters: its
/// summary on success, its error on failure.
pub open spec fn report_text(report: Result<String, String>) -> Result<Seq<char>, Seq<char>> {
    match report {
        Ok(summary) => Ok(summary@),
        Err(error) => Err(error@),
    }
}

/// What the host receives from `op` on `subject` for a report of the engine.
/// A summary becomes a successful response that names the subject and
/// carries the summary as its metadata; an error becomes the failure of that
/// operation.
pub open spec fn summary_result(
    op: Operation,
    subject: Seq<char>,
    report: Result<Seq<char>, Seq<char>>,
) -> Result<ResponseView, ExceptionView>
    recommends
        reports_summary(op),
{
    match report {
        Ok(summary) => Ok(
            ResponseView {
                success: true,
                message: success_message(op, subject),
                metadata: Some(summary),
            },
        ),
        Err(error) => Err(engine_failure(op, error)),
    }
}

/// What a returned response or failure holds.
pub open spec fn response_view(result: Result<PhpPagefindResponse, PagefindException>) -> Result<
    ResponseView,
    ExceptionView,
> {
    match result {
        Ok(response) => Ok(response@),
        Err(failure) => Err(failure@),
    }
}

/// What a sequence of engine files holds.
pub open spec fn engine_files(files: Seq<EngineFile>) -> Seq<EngineFileView> {
    files.map_values(|file: EngineFile| file@)
}

/// What a sequence of host files holds.
pub open spec fn host_files(files: Seq<PhpPagefindFile>) -> Seq<FileView> {
    files.map_values(|file: PhpPagefindFile| file@)
}

/// Whether every path among `files` is valid UTF-8.
pub open spec fn all_names_valid(files: Seq<EngineFileView>) -> bool {
    forall|i: int| 0 <= i < files.len() ==> valid_utf8(#[trigger] files[i].filename)
}

/// What the engine reported on a read of the built index.
pub open spec fn produced_view(produced: Result<Vec<EngineFile>, String>) -> Result<
    Seq<EngineFileView>,
    Seq<char>,
> {
    match produced {
        Ok(files) => Ok(engine_files(files@)),
        Err(error) => Err(error@),
    }
}

/// What the host receives from a read of the built index. The files come in
/// the engine's order, each with its contents unchanged; one path that is not
/// valid UTF-8 fails the whole read.
pub open spec fn files_result(produced: Result<Seq<EngineFileView>, Seq<char>>) -> Result<
    Seq<FileView>,
    ExceptionView,
> {
    match produced {
        Ok(files) => if all_names_valid(files) {
            Ok(files.map_values(|file: EngineFileView| host_file(file)))
        } else {
            Err(invalid_filename())
        },
        Err(error) => Err(engine_failure(Operation::GetFiles, error)),
    }
}

/// What a returned sequence of files or failure holds.
pub open spec fn files_view(result: Result<Vec<PhpPagefindFile>, PagefindException>) -> Result<
    Seq<FileView>,
    ExceptionView,
> {
    match result {
        Ok(files) => Ok(host_files(files@)),
        Err(failure) => Err(failure@),
    }
}

/// A success names what it was about: the message of a success of `op` on
/// `subject` holds `subject`, whole and unchanged.
pub proof fn lemma_success_message_names_subject(op: Operation, subject: Seq<char>)
    requires
        reports_summary(op),
    ensures
        occurs_in(subject, success_message(op, subject)),
{
    let message = success_message(op, subject);
    let at: int = success_prefix(op).len() as int;
    assert(window(message, at, subject.len()) =~= subject);
}

/// Nothing is rejected on this side. An add or a write fails exactly when
/// the engine reported an error, whatever was added or written before and
/// under whatever path or URL; and it succeeds with `success` set and the
/// engine's summary as metadata, whatever that summary says.
pub proof fn lemma_only_the_engine_rejects(
    op: Operation,
    subject: Seq<char>,
    report: Result<Seq<char>, Seq<char>>,
)
    requires
        reports_summary(op),
    ensures
        summary_result(op, subject, report) is Err <==> report is Err,
        report matches Ok(summary) ==> summary_result(op, subject, report) matches Ok(response)
            && response.success && response.metadata == Some(summary),
        report matches Err(error) ==> summary_result(op, subject, report) matches Err(failure)
            && failure.kind == error_kind(op) && failure.message == error_prefix(op) + error,
{
}

/// A read of the built index hands on what the engine produced: where every
/// path is valid UTF-8, there are as many files as the engine gave, in its
/// order, each with the very bytes of its contents and a filename whose
/// UTF-8 encoding is the engine's path.
pub proof fn lemma_files_are_handed_on_unchanged(files: Seq<EngineFileView>)
    requires
        all_names_valid(files),
    ensures
        files_result(Ok(files)) matches Ok(out) && out.len() == files.len() && forall|i: int|
            0 <= i < files.len() ==> (#[trigger] out[i]).contents == files[i].contents
                && encode_utf8(out[i].filename) == files[i].filename,
{
    let out = files.map_values(|file: EngineFileView| host_file(file));
    assert forall|i: int| 0 <= i < files.len() implies (#[trigger] out[i]).contents
        == files[i].contents && encode_utf8(out[i].filename) == files[i].filename by {
        assert(valid_utf8(files[i].filename));
        vstd::utf8::decode_utf8_encode_utf8(files[i].filename);
    }
}

/// One path that is not valid UTF-8 fails the whole read: no file is
/// returned, and the failure is the encoding error.
pub proof fn lemma_one_invalid_name_fails_the_read(files: Seq<EngineFileView>, at: int)
    requires
        0 <= at < files.len(),
        !valid_utf8(files[at].filename),
    ensures
        files_result(Ok(files)) == Err::<Seq<FileView>, ExceptionView>(invalid_filename()),
{
}

fn success_prefix_text(op: Operation) -> (prefix: &'static str)
    requires
        reports_summary(op),
    ensures
        prefix@ == success_prefix(op),
{
    match op {
        Operation::AddHtmlFile => "Successfully added HTML file: ",
        Operation::AddDirectory => "Successfully added directory: ",
        _ => "Successfully wrote files to: ",
    }
}

/// The host's value for the engine's report on `op`, which names `subject`.
fn summarize(op: Operation, subject: &str, report: Result<String, String>) -> (result: Result<
    PhpPagefindResponse,
    PagefindException,
>)
    requires
        reports_summary(op),
    ensures
        response_view(result) == summary_result(op, subject@, report_text(report)),
{
    match report {
        Ok(summary) => {
            let mut message = String::from_str(success_prefix_text(op));
            message.append(subject);
            Ok(PhpPagefindResponse::__construct(true, message, Some(summary)))
        },
        Err(error) => Err(PagefindException::from_engine_error(op, error.as_str())),
    }
}

/// The handle on one engine session, which it owns. A handle exists only
/// once the engine has started, and no operation changes it: a failure leaves
/// it as usable as a success does. The exclusive borrow that every operation
/// takes keeps the calls on one handle in sequence. The session itself is the
/// engine's and is not read here.
#[derive(Debug)]
pub struct PhpPagefindIndex<E> {
    session: E,
    options: EngineOptions,
}

impl<E> PhpPagefindIndex<E> {
    /// The engine session of this handle.
    pub closed spec fn session(&self) -> E {
        self.session
    }

    /// The options that the session of this handle was started with.
    pub closed spec fn options(&self) -> EngineOptionsView {
        self.options@
    }

    /// The handle for a session that the engine was asked to start with
    /// `config.engine_options()`. `started` is the engine's answer: the
    /// running session, or the text of its error.
    pub fn __construct(config: &PhpPagefindServiceConfig, started: Result<E, String>) -> (result:
        Result<Self, PagefindException>)
        ensures
            match started {
                Ok(session) => result matches Ok(handle) && handle.session() == session
                    && handle.options() == engine_options(config@),
                Err(error) => result matches Err(failure) && failure@ == engine_failure(
                    Operation::Construct,
                    error@,
                ),
            },
    {
        match started {
            Ok(session) => Ok(PhpPagefindIndex { session, options: config.engine_options() }),
            Err(error) => Err(
                PagefindException::from_engine_error(Operation::Construct, error.as_str()),
            ),
        }
    }

    /// The session, for the one call that the engine is to run next.
    pub fn session_mut(&mut self) -> (session: &mut E)
        ensures
            *session == old(self).session(),
            final(self).session() == *final(session),
            final(self).options() == old(self).options(),
    {
        &mut self.session
    }

    /// The host's value for a document that went to the engine as
    /// `EngineCall::add_html_file(source_path, ..)`, given the engine's
    /// report `indexed`.
    pub fn add_html_file(
        &mut self,
        source_path: String,
        indexed: Result<String, String>,
    ) -> (result: Result<PhpPagefindResponse, PagefindException>)
        ensures
            *final(self) == *old(self),
            response_view(result) == summary_result(
                Operation::AddHtmlFile,
                source_path@,
                report_text(indexed),
            ),
    {
        summarize(Operation::AddHtmlFile, source_path.as_str(), indexed)
    }

    /// The host's value for a directory that went to the engine as
    /// `EngineCall::add_directory(path, ..)`, given the engine's report
    /// `indexed`.
    pub fn add_directory(&mut self, path: String, indexed: Result<String, String>) -> (result:
        Result<PhpPagefindResponse, PagefindException>)
        ensures
            *final(self) == *old(self),
            response_view(result) == summary_result(
                Operation::AddDirectory,
                path@,
                report_text(indexed),
            ),
    {
        summarize(Operation::AddDirectory, path.as_str(), indexed)
    }

    /// The host's value for a write that went to the engine as
    /// `EngineCall::write_files(output_directory)`, given the engine's
    /// report `written`.
    pub fn write_files(
        &mut self,
        output_directory: String,
        written: Result<String, String>,
    ) -> (result: Result<PhpPagefindResponse, PagefindException>)
        ensures
            *final(self) == *old(self),
            response_view(result) == summary_result(
                Operation::WriteFiles,
                output_directory@,
                report_text(written),
            ),
    {
        summarize(Operation::WriteFiles, output_directory.as_str(), written)
    }

    /// The host's files for what the engine produced on a read of the built
    /// index.
    pub fn get_files(&mut self, produced: Result<Vec<EngineFile>, String>) -> (result: Result<
        Vec<PhpPagefindFile>,
        PagefindException,
    >)
        ensures
            *final(self) == *old(self),
            files_view(result) == files_result(produced_view(produced)),
            result matches Ok(out) ==> produced matches Ok(files) && out@.len() == files@.len()
                && forall|i: int|
                0 <= i < out@.len() ==> (#[trigger] out@[i])@ == host_file(files@[i]@),
    {
        match produced {
            Ok(files) => {
                let ghost source = engine_files(files@);
                let mut handed: Vec<PhpPagefindFile> = Vec::new();
                for file in it: files
                    invariant
                        produced_view(produced) == Ok::<Seq<EngineFileView>, Seq<char>>(source),
                        engine_files(it.seq()) == source,
                        handed@.len() == it.index(),
                        forall|j: int|
                            0 <= j < it.index() ==> valid_utf8(#[trigger] source[j].filename),
                        forall|j: int|
                            0 <= j < it.index() ==> (#[trigger] handed@[j])@ == host_file(
                                source[j],
                            ),
                {
                    let ghost at: int = it.index();
                    assert(source[at] == file@);
                    match PhpPagefindFile::from_engine(file) {
                        Some(host) => {
                            handed.push(host);
                        },
                        None => {
                            assert(!valid_utf8(source[at].filename));
                            return Err(PagefindException::invalid_filename());
                        },
                    }
                }
                assert(host_files(handed@) =~= source.map_values(
                    |file: EngineFileView| host_file(file),
                ));
                Ok(handed)
            },
            Err(error) => Err(
                PagefindException::from_engine_error(Operation::GetFiles, error.as_str()),
            ),
        }
    }
}

} // verus!
