use std::time::Duration;
use vstd::prelude::*;
use vstd::string::StringExecFns;
use crate::http;
use crate::logger;
use crate::logger::{LoggerOptions, Verbosity};
use crate::path::{segments, ContextDir};
use crate::retry::Retry;
use crate::text::{chars_of, same_text};
use crate::variables::Variables;

verus! {

/// The kind of an error of the command line parser.
#[verifier::external_type_specification]
#[verifier::external_body]
pub struct ExClapErrorKind(clap::error::ErrorKind);

/// The options that the command line gave.
pub struct Options {
    pub aws_sigv4: Option<String>,
    pub cacert_file: Option<String>,
    pub client_cert_file: Option<String>,
    pub client_key_file: Option<String>,
    pub color: bool,
    pub compressed: bool,
    pub connect_timeout: Duration,
    pub connects_to: Vec<String>,
    pub continue_on_error: bool,
    pub cookie_input_file: Option<String>,
    pub cookie_output_file: Option<String>,
    pub delay: Duration,
    pub error_format: ErrorFormat,
    pub file_root: Option<String>,
    pub follow_location: bool,
    pub html_dir: Option<String>,
    pub http_version: Option<HttpVersion>,
    pub ignore_asserts: bool,
    pub include_headers: bool,
    pub input_files: Vec<String>,
    pub insecure: bool,
    pub interactive: bool,
    pub ip_resolve: Option<IpResolve>,
    pub junit_file: Option<String>,
    pub max_redirect: Option<usize>,
    pub no_proxy: Option<String>,
    pub output: Option<String>,
    pub output_type: OutputType,
    pub path_as_is: bool,
    pub progress_bar: bool,
    pub proxy: Option<String>,
    pub resolves: Vec<String>,
    pub retry: Retry,
    pub retry_interval: Duration,
    pub ssl_no_revoke: bool,
    pub tap_file: Option<String>,
    pub test: bool,
    pub timeout: Duration,
    pub to_entry: Option<usize>,
    pub user: Option<String>,
    pub user_agent: Option<String>,
    pub variables: Variables,
    pub verbose: bool,
    pub very_verbose: bool,
}

/// Why the command line gave no options to run with.
#[derive(Clone, Debug, PartialEq, Eq)]
pub enum OptionsError {
    /// The user asked for the help or for the version: the text to print.
    Info(String),
    /// No input file was given: the help to print.
    NoInput(String),
    /// The command line is wrong: the message to print.
    Error(String),
}

/// What an `OptionsError` is.
pub enum OptionsErrorView {
    Info(Seq<char>),
    NoInput(Seq<char>),
    Error(Seq<char>),
}

impl View for OptionsError {
    type V = OptionsErrorView;

    open spec fn view(&self) -> OptionsErrorView {
        match *self {
            OptionsError::Info(text) => OptionsErrorView::Info(text@),
            OptionsError::NoInput(text) => OptionsErrorView::NoInput(text@),
            OptionsError::Error(text) => OptionsErrorView::Error(text@),
        }
    }
}

/// How errors are printed.
#[derive(Copy, Clone, Debug, PartialEq, Eq, Structural)]
pub enum ErrorFormat {
    Short,
    Long,
}

/// The version of HTTP that the command line asks for.
#[derive(Copy, Clone, Debug, PartialEq, Eq, Structural)]
pub enum HttpVersion {
    V10,
    V11,
    V2,
    V3,
}

/// The family of addresses that the command line asks for.
#[derive(Copy, Clone, Debug, PartialEq, Eq, Structural)]
pub enum IpResolve {
    IpV4,
    IpV6,
}

/// What is written to the standard output.
#[derive(Clone, Debug, PartialEq, Eq, Structural)]
pub enum OutputType {
    ResponseBody,
    Json,
    NoOutput,
}

/// Why the command line parser stopped, as far as the options tell it apart.
#[derive(Copy, Clone, Debug, PartialEq, Eq, Structural)]
pub enum StopKind {
    /// The user asked for the help.
    Help,
    /// The user asked for the version.
    Version,
    /// Anything else: the command line is wrong.
    Fault,
}

/// The options of the run of one input file.
pub struct RunnerOptions {
    pub aws_sigv4: Option<String>,
    pub cacert_file: Option<String>,
    pub client_cert_file: Option<String>,
    pub client_key_file: Option<String>,
    pub compressed: bool,
    pub connect_timeout: Duration,
    pub connects_to: Vec<String>,
    pub continue_on_error: bool,
    pub cookie_input_file: Option<String>,
    pub delay: Duration,
    pub follow_location: bool,
    pub ignore_asserts: bool,
    pub insecure: bool,
    pub max_redirect: Option<usize>,
    pub no_proxy: Option<String>,
    pub path_as_is: bool,
    pub proxy: Option<String>,
    pub resolves: Vec<String>,
    pub retry: Retry,
    pub retry_interval: Duration,
    pub ssl_no_revoke: bool,
    pub timeout: Duration,
    pub to_entry: Option<usize>,
    pub user: Option<String>,
    pub user_agent: Option<String>,
    pub context_dir: ContextDir,
    pub http_version: http::RequestedHttpVersion,
    pub ip_resolve: http::IpResolve,
    pub output: Option<String>,
    /// Whether the user is asked before each entry whether to go on.
    pub pre_entry: bool,
    /// Whether the user is asked after each entry whether to go on.
    pub post_entry: bool,
}

/// Tells the variants of `clap::error::ErrorKind` apart as far as the options need it:
/// `DisplayHelp`, `DisplayVersion`, and all the others as one. Nothing is claimed of which
/// of the three a given kind gives.
#[verifier::external_body]
fn stop_kind(kind: clap::error::ErrorKind) -> (stop: StopKind) {
    match kind {
        clap::error::ErrorKind::DisplayHelp => StopKind::Help,
        clap::error::ErrorKind::DisplayVersion => StopKind::Version,
        _ => StopKind::Fault,
    }
}

impl StopKind {
    /// Whether the parser stopped because the user asked for a text, not for a fault.
    pub open spec fn is_info(self) -> bool {
        self == StopKind::Help || self == StopKind::Version
    }
}

impl OptionsError {
    /// The error for a stop of the command line parser: the help and the version are
    /// texts to show, everything else is a wrong command line.
    pub fn new(stop: StopKind, text: String) -> (error: OptionsError)
        ensures
            error@ == if stop.is_info() {
                OptionsErrorView::Info(text@)
            } else {
                OptionsErrorView::Error(text@)
            },
    {
        match stop {
            StopKind::Version => OptionsError::Info(text),
            StopKind::Help => OptionsError::Info(text),
            StopKind::Fault => OptionsError::Error(text),
        }
    }

    /// The error for an error of the command line parser, given its kind and its text. It
    /// carries the text, and never says that the input is missing: the parser does not
    /// know of that.
    pub fn from(kind: clap::error::ErrorKind, text: String) -> (error: OptionsError)
        ensures
            error@ == OptionsErrorView::Info(text@) || error@ == OptionsErrorView::Error(text@),
    {
        OptionsError::new(stop_kind(kind), text)
    }
}

impl HttpVersion {
    /// The version to ask the transport for.
    pub open spec fn requested(self) -> http::RequestedHttpVersion {
        match self {
            HttpVersion::V10 => http::RequestedHttpVersion::Http10,
            HttpVersion::V11 => http::RequestedHttpVersion::Http11,
            HttpVersion::V2 => http::RequestedHttpVersion::Http2,
            HttpVersion::V3 => http::RequestedHttpVersion::Http3,
        }
    }
}

impl From<HttpVersion> for http::RequestedHttpVersion {
    fn from(value: HttpVersion) -> (version: Self) {
        match value {
            HttpVersion::V10 => http::RequestedHttpVersion::Http10,
            HttpVersion::V11 => http::RequestedHttpVersion::Http11,
            HttpVersion::V2 => http::RequestedHttpVersion::Http2,
            HttpVersion::V3 => http::RequestedHttpVersion::Http3,
        }
    }
}

impl vstd::std_specs::convert::FromSpecImpl<HttpVersion> for http::RequestedHttpVersion {
    open spec fn obeys_from_spec() -> bool {
        true
    }

    open spec fn from_spec(value: HttpVersion) -> Self {
        value.requested()
    }
}

impl IpResolve {
    /// The family of addresses to ask the transport for.
    pub open spec fn requested(self) -> http::IpResolve {
        match self {
            IpResolve::IpV4 => http::IpResolve::IpV4,
            IpResolve::IpV6 => http::IpResolve::IpV6,
        }
    }
}

impl From<IpResolve> for http::IpResolve {
    fn from(value: IpResolve) -> (family: Self) {
        match value {
            IpResolve::IpV4 => http::IpResolve::IpV4,
            IpResolve::IpV6 => http::IpResolve::IpV6,
        }
    }
}

impl vstd::std_specs::convert::FromSpecImpl<IpResolve> for http::IpResolve {
    open spec fn obeys_from_spec() -> bool {
        true
    }

    open spec fn from_spec(value: IpResolve) -> Self {
        value.requested()
    }
}

impl ErrorFormat {
    /// The format to ask the logger for.
    pub open spec fn requested(self) -> logger::ErrorFormat {
        match self {
            ErrorFormat::Short => logger::ErrorFormat::Short,
            ErrorFormat::Long => logger::ErrorFormat::Long,
        }
    }
}

impl From<ErrorFormat> for logger::ErrorFormat {
    fn from(value: ErrorFormat) -> (format: Self) {
        match value {
            ErrorFormat::Short => logger::ErrorFormat::Short,
            ErrorFormat::Long => logger::ErrorFormat::Long,
        }
    }
}

impl vstd::std_specs::convert::FromSpecImpl<ErrorFormat> for logger::ErrorFormat {
    open spec fn obeys_from_spec() -> bool {
        true
    }

    open spec fn from_spec(value: ErrorFormat) -> Self {
        value.requested()
    }
}

impl HttpVersion {
    /// The version that four flags, one for each version, ask for: the newest of those
    /// that are set.
    pub open spec fn of(http10: bool, http11: bool, http2: bool, http3: bool) -> Option<
        HttpVersion,
    > {
        if http3 {
            Some(HttpVersion::V3)
        } else if http2 {
            Some(HttpVersion::V2)
        } else if http11 {
            Some(HttpVersion::V11)
        } else if http10 {
            Some(HttpVersion::V10)
        } else {
            None
        }
    }

    /// The version that four flags ask for.
    pub fn from_flags(http10: bool, http11: bool, http2: bool, http3: bool) -> (version: Option<
        HttpVersion,
    >)
        ensures
            version == HttpVersion::of(http10, http11, http2, http3),
    {
        if http3 {
            Some(HttpVersion::V3)
        } else if http2 {
            Some(HttpVersion::V2)
        } else if http11 {
            Some(HttpVersion::V11)
        } else if http10 {
            Some(HttpVersion::V10)
        } else {
            None
        }
    }
}

impl IpResolve {
    /// The family of addresses that two flags ask for: version 6 where both are set.
    pub fn from_flags(ipv4: bool, ipv6: bool) -> (family: Option<IpResolve>)
        ensures
            family == if ipv6 {
                Some(IpResolve::IpV6)
            } else if ipv4 {
                Some(IpResolve::IpV4)
            } else {
                None::<IpResolve>
            },
    {
        if ipv6 {
            Some(IpResolve::IpV6)
        } else if ipv4 {
            Some(IpResolve::IpV4)
        } else {
            None
        }
    }
}

impl ErrorFormat {
    /// The format that a name on the command line stands for: the long one for `long`,
    /// the short one for every other name.
    pub fn from_name(name: &str) -> (format: ErrorFormat)
        ensures
            format == if name@ == "long"@ {
                ErrorFormat::Long
            } else {
                ErrorFormat::Short
            },
    {
        if same_text(name, "long") {
            ErrorFormat::Long
        } else {
            ErrorFormat::Short
        }
    }
}

impl OutputType {
    /// What is written to the standard output: the result as JSON where that is asked
    /// for, nothing where nothing is asked for or where the run is a test, else the body
    /// of the last response.
    pub fn from_flags(json: bool, no_output: bool, test: bool) -> (output: OutputType)
        ensures
            output == if json {
                OutputType::Json
            } else if no_output || test {
                OutputType::NoOutput
            } else {
                OutputType::ResponseBody
            },
    {
        if json {
            OutputType::Json
        } else if no_output || test {
            OutputType::NoOutput
        } else {
            OutputType::ResponseBody
        }
    }
}

/// Whether the output is colored: as the flags say where one of them is set, `color`
/// before `no_color`; else where the output goes to a terminal.
pub fn use_color(color: bool, no_color: bool, terminal: bool) -> (colored: bool)
    ensures
        colored == (color || (!no_color && terminal)),
{
    if color {
        true
    } else if no_color {
        false
    } else {
        terminal
    }
}

/// Whether the progress of a run is shown: in a test that says nothing else and asks no
/// question, on a terminal.
pub fn use_progress_bar(
    test: bool,
    verbose: bool,
    very_verbose: bool,
    interactive: bool,
    terminal: bool,
) -> (shown: bool)
    ensures
        shown == (test && !verbose && !very_verbose && !interactive && terminal),
{
    test && !verbose && !very_verbose && !interactive && terminal
}

/// The bound that a count on the command line sets, where a negative count stands for no
/// bound at all.
pub fn bound_of(count: i32) -> (bound: Option<usize>)
    ensures
        bound == if count < 0 {
            None::<usize>
        } else {
            Some(count as usize)
        },
{
    if count < 0 {
        None
    } else {
        Some(count as usize)
    }
}

/// The name that stands for the standard input.
pub open spec fn is_standard_input(filename: Seq<char>) -> bool {
    filename == seq!['-']
}

/// Whether `filename` can name a file: whether something follows its last separator.
pub open spec fn names_a_file(filename: Seq<char>) -> bool {
    segments(filename).last().len() > 0
}

/// The directory that holds the file `filename`: what stands before the last separator
/// of the name. A name without a separator is a file of the current directory, which the
/// empty path stands for; a name whose only separator comes first is a file of the root.
pub open spec fn directory_of(filename: Seq<char>) -> Seq<char> {
    let cut = filename.len() - segments(filename).last().len();
    if cut == 0 {
        Seq::empty()
    } else if cut == 1 {
        seq!['/']
    } else {
        filename.take(cut - 1)
    }
}

/// The file root of a run: the one that the command line gives, where it gives one; else
/// the current directory where the input is the standard input, and the directory of the
/// input file where it is a file.
pub open spec fn file_root_of(
    file_root: Option<String>,
    filename: Seq<char>,
    current_dir: Seq<char>,
) -> Seq<char> {
    match file_root {
        Some(root) => root@,
        None => if is_standard_input(filename) {
            current_dir
        } else {
            directory_of(filename)
        },
    }
}

/// What follows the last separator of a path is as long as the path at most, and the
/// separator stands right before it.
pub proof fn lemma_last_segment(path: Seq<char>)
    ensures
        segments(path).len() >= 1,
        segments(path).last().len() <= path.len(),
        segments(path).last() == path.skip(path.len() - segments(path).last().len()),
        segments(path).last().len() < path.len() ==> path[path.len() - segments(
            path,
        ).last().len() - 1] == '/',
    decreases path.len(),
{
    if path.len() > 0 {
        lemma_last_segment(path.drop_last());
    }
}

/// Whether `filename` can name a file.
pub fn names_file(filename: &str) -> (b: bool)
    ensures
        b == names_a_file(filename@),
{
    let chars = chars_of(filename);
    proof {
        lemma_last_segment(chars@);
    }
    chars.len() > 0 && chars[chars.len() - 1] != '/'
}

fn directory(filename: &str) -> (dir: String)
    ensures
        dir@ == directory_of(filename@),
{
    let chars = chars_of(filename);
    let mut cut: usize = chars.len();
    proof {
        lemma_last_segment(chars@);
    }
    while cut > 0 && chars[cut - 1] != '/'
        invariant
            cut <= chars.len(),
            forall|j: int| cut <= j < chars.len() ==> chars@[j] != '/',
        decreases cut,
    {
        cut = cut - 1;
    }
    proof {
        lemma_segment_after_cut(chars@, cut as int);
    }
    let mut dir = String::new();
    if cut == 1 {
        dir.push('/');
    } else if cut > 1 {
        let mut i: usize = 0;
        while i < cut - 1
            invariant
                i <= cut - 1,
                cut <= chars.len(),
                dir@ == chars@.take(i as int),
            decreases cut - 1 - i,
        {
            dir.push(chars[i]);
            i = i + 1;
        }
    }
    dir
}

/// Where no separator stands from `cut` on, and one stands right before `cut` or `cut` is
/// the start, the last segment of the path is what stands from `cut` on.
proof fn lemma_segment_after_cut(path: Seq<char>, cut: int)
    requires
        0 <= cut <= path.len(),
        forall|j: int| cut <= j < path.len() ==> path[j] != '/',
        cut > 0 ==> path[cut - 1] == '/',
    ensures
        segments(path).last().len() == path.len() - cut,
    decreases path.len(),
{
    if path.len() > cut {
        lemma_segment_after_cut(path.drop_last(), cut);
        crate::path::lemma_segments_len(path.drop_last());
    } else if path.len() > 0 {
        crate::path::lemma_segments_len(path.drop_last());
    }
}

impl Options {
    /// The file root of the run of `filename`.
    pub fn file_root(&self, filename: &str, current_dir: &str) -> (root: String)
        ensures
            root@ == file_root_of(self.file_root, filename@, current_dir@),
    {
        match &self.file_root {
            Some(root) => root.clone(),
            None => {
                let name = chars_of(filename);
                if name.len() == 1 && name[0] == '-' {
                    assert(filename@ =~= seq!['-']);
                    String::from_str(current_dir)
                } else {
                    directory(filename)
                }
            },
        }
    }

    /// Whether `runner` is what these options ask of the run of `filename`, started in
    /// `current_dir`.
    pub open spec fn asks_for(
        &self,
        filename: Seq<char>,
        current_dir: Seq<char>,
        runner: RunnerOptions,
    ) -> bool {
        &&& runner.aws_sigv4 == self.aws_sigv4
        &&& runner.cacert_file == self.cacert_file
        &&& runner.client_cert_file == self.client_cert_file
        &&& runner.client_key_file == self.client_key_file
        &&& runner.compressed == self.compressed
        &&& runner.connect_timeout == self.connect_timeout
        &&& runner.connects_to@ == self.connects_to@
        &&& runner.continue_on_error == self.continue_on_error
        &&& runner.cookie_input_file == self.cookie_input_file
        &&& runner.delay == self.delay
        &&& runner.follow_location == self.follow_location
        &&& runner.ignore_asserts == self.ignore_asserts
        &&& runner.insecure == self.insecure
        &&& runner.max_redirect == self.max_redirect
        &&& runner.no_proxy == self.no_proxy
        &&& runner.path_as_is == self.path_as_is
        &&& runner.proxy == self.proxy
        &&& runner.resolves@ == self.resolves@
        &&& runner.retry == self.retry
        &&& runner.retry_interval == self.retry_interval
        &&& runner.ssl_no_revoke == self.ssl_no_revoke
        &&& runner.timeout == self.timeout
        &&& runner.to_entry == self.to_entry
        &&& runner.user == self.user
        &&& runner.user_agent == self.user_agent
        &&& runner.context_dir.current_dir() == current_dir
        &&& runner.context_dir.file_root() == file_root_of(self.file_root, filename, current_dir)
        &&& runner.http_version == match self.http_version {
            Some(version) => version.requested(),
            None => http::RequestedHttpVersion::Default,
        }
        &&& runner.ip_resolve == match self.ip_resolve {
            Some(family) => family.requested(),
            None => http::IpResolve::Default,
        }
        &&& runner.output is None
        &&& runner.pre_entry == self.interactive
        &&& runner.post_entry == self.interactive
    }

    /// The options of the run of `filename`, started in `current_dir`. The output file of
    /// the command line is left out: it is for the last response of the run, not for each
    /// entry. Where the command line gives no file root, `filename` is the standard input
    /// or names a file.
    pub fn to_runner_options(&self, filename: &str, current_dir: &str) -> (runner: RunnerOptions)
        requires
            self.file_root is Some || is_standard_input(filename@) || names_a_file(filename@),
        ensures
            self.asks_for(filename@, current_dir@, runner),
    {
        let file_root = self.file_root(filename, current_dir);
        let context_dir = ContextDir::new(current_dir, file_root.as_str());
        let http_version = match self.http_version {
            Some(version) => http::RequestedHttpVersion::from(version),
            None => http::RequestedHttpVersion::Default,
        };
        let ip_resolve = match self.ip_resolve {
            Some(family) => http::IpResolve::from(family),
            None => http::IpResolve::Default,
        };
        RunnerOptions {
            aws_sigv4: self.aws_sigv4.clone(),
            cacert_file: self.cacert_file.clone(),
            client_cert_file: self.client_cert_file.clone(),
            client_key_file: self.client_key_file.clone(),
            compressed: self.compressed,
            connect_timeout: self.connect_timeout,
            connects_to: self.connects_to.clone(),
            continue_on_error: self.continue_on_error,
            cookie_input_file: self.cookie_input_file.clone(),
            delay: self.delay,
            follow_location: self.follow_location,
            ignore_asserts: self.ignore_asserts,
            insecure: self.insecure,
            max_redirect: self.max_redirect,
            no_proxy: self.no_proxy.clone(),
            path_as_is: self.path_as_is,
            proxy: self.proxy.clone(),
            resolves: self.resolves.clone(),
            retry: self.retry,
            retry_interval: self.retry_interval,
            ssl_no_revoke: self.ssl_no_revoke,
            timeout: self.timeout,
            to_entry: self.to_entry,
            user: self.user.clone(),
            user_agent: self.user_agent.clone(),
            context_dir,
            http_version,
            ip_resolve,
            output: None,
            pre_entry: self.interactive,
            post_entry: self.interactive,
        }
    }

    /// The options of the logger for the run of `filename`.
    pub fn to_logger_options(&self, filename: &str) -> (logger: LoggerOptions)
        ensures
            logger.color == self.color,
            logger.error_format == self.error_format.requested(),
            logger.filename@ == filename@,
            logger.progress_bar == self.progress_bar,
            logger.test == self.test,
            logger.verbosity == Verbosity::of(self.verbose, self.very_verbose),
    {
        LoggerOptions {
            color: self.color,
            error_format: logger::ErrorFormat::from(self.error_format),
            filename: String::from_str(filename),
            progress_bar: self.progress_bar,
            test: self.test,
            verbosity: Verbosity::from(self.verbose, self.very_verbose),
        }
    }
}

/// What is wrong with options that the command line parser accepted, if anything: a run
/// needs an input file, and cookies are saved for one input file only.
pub open spec fn fault_of(options: Options, help: Seq<char>) -> Option<OptionsErrorView> {
    if options.input_files@.len() == 0 {
        Some(OptionsErrorView::NoInput(help))
    } else if options.cookie_output_file is Some && options.input_files@.len() > 1 {
        Some(OptionsErrorView::Error("Only save cookies for a unique session"@))
    } else {
        None
    }
}

/// Checks the options that the command line parser accepted, and hands them on where
/// nothing is wrong with them. `help` is the help of the command line, which is the error
/// for a command line without an input file.
pub fn parse(options: Options, help: String) -> (result: Result<Options, OptionsError>)
    ensures
        match result {
            Ok(checked) => fault_of(options, help@) is None && checked == options,
            Err(error) => fault_of(options, help@) == Some(error@),
        },
{
    if options.input_files.len() == 0 {
        return Err(OptionsError::NoInput(help));
    }
    if options.cookie_output_file.is_some() && options.input_files.len() > 1 {
        return Err(
            OptionsError::Error(String::from_str("Only save cookies for a unique session")),
        );
    }
    Ok(options)
}

} // verus!
