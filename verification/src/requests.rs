//! What is asked for: on the command line and by the names of tools.
use vstd::prelude::*;
use vstd::string::*;

use crate::keyring::texts;
use crate::number::{parse_unsigned, unsigned_value};
use crate::record::optional_text;
use crate::text::{same_text, verdict};

verus! {

/// Seconds for which a handle lives unless something else is asked for.
pub const DEFAULT_TTL_SECONDS: u64 = 900;

/// The size, in bytes, of the arguments of a tool.
pub const MAX_TOOL_ARGUMENT_BYTES: usize = 64 * 1024;

/// The number of captures and runs that go on at one time.
pub const MAX_CONCURRENT_OPERATIONS: usize = 4;

/// The number of status requests and deletions that go on at one time.
pub const MAX_CONCURRENT_CONTROL_OPERATIONS: usize = 2;

// ---------------------------------------------------------------------------
// The command line
// ---------------------------------------------------------------------------

/// A wish to capture a secret.
#[derive(Debug, Clone)]
pub struct CaptureRequest {
    pub target: String,
    pub label: String,
    pub ttl_seconds: u64,
    pub single_use: bool,
}

/// What a wish to capture stands for.
#[verifier::ext_equal]
pub struct CaptureModel {
    pub target: Seq<char>,
    pub label: Seq<char>,
    pub ttl_seconds: u64,
    pub single_use: bool,
}

impl View for CaptureRequest {
    type V = CaptureModel;

    open spec fn view(&self) -> CaptureModel {
        CaptureModel {
            target: self.target@,
            label: self.label@,
            ttl_seconds: self.ttl_seconds,
            single_use: self.single_use,
        }
    }
}

/// What is asked for on the command line.
#[derive(Debug)]
pub enum CliRequest {
    Serve,
    Capture(CaptureRequest),
    Status { wanted: Option<String> },
    Delete { handle: String },
    Run { handle: String, operation: String },
}

/// What a request stands for.
#[verifier::ext_equal]
pub enum CliModel {
    Serve,
    Capture(CaptureModel),
    Status { wanted: Option<Seq<char>> },
    Delete { handle: Seq<char> },
    Run { handle: Seq<char>, operation: Seq<char> },
}

impl View for CliRequest {
    type V = CliModel;

    open spec fn view(&self) -> CliModel {
        match self {
            CliRequest::Serve => CliModel::Serve,
            CliRequest::Capture(request) => CliModel::Capture(request@),
            CliRequest::Status { wanted } => CliModel::Status { wanted: optional_text(*wanted) },
            CliRequest::Delete { handle } => CliModel::Delete { handle: handle@ },
            CliRequest::Run { handle, operation } => CliModel::Run {
                handle: handle@,
                operation: operation@,
            },
        }
    }
}

/// An argument, if there is one at a place.
pub open spec fn argument(args: Seq<Seq<char>>, i: int) -> Option<Seq<char>> {
    if 0 <= i < args.len() {
        Some(args[i])
    } else {
        None
    }
}

/// What is known of a capture while its arguments are read.
#[verifier::ext_equal]
pub struct CaptureOptions {
    pub target: Option<Seq<char>>,
    pub label: Option<Seq<char>>,
    pub ttl_seconds: u64,
    pub single_use: bool,
}

/// What the arguments of a capture ask for, from one place on.
pub open spec fn capture_options(args: Seq<Seq<char>>, i: int, read: CaptureOptions) -> Result<
    CaptureOptions,
    Seq<char>,
>
    decreases args.len() + 2 - i,
{
    if i >= args.len() {
        Ok(read)
    } else if args[i] == "--target"@ {
        capture_options(args, i + 2, CaptureOptions { target: argument(args, i + 1), ..read })
    } else if args[i] == "--label"@ {
        capture_options(args, i + 2, CaptureOptions { label: argument(args, i + 1), ..read })
    } else if args[i] == "--ttl-seconds"@ {
        match argument(args, i + 1) {
            None => Err("ttl_seconds is required"@),
            Some(text) => match unsigned_value(text, u64::MAX as nat) {
                None => Err("ttl_seconds must be an integer"@),
                Some(ttl) => capture_options(
                    args,
                    i + 2,
                    CaptureOptions { ttl_seconds: ttl as u64, ..read },
                ),
            },
        }
    } else if args[i] == "--reusable"@ {
        capture_options(args, i + 1, CaptureOptions { single_use: false, ..read })
    } else {
        Err("unknown capture argument"@)
    }
}

/// What is captured unless something else is asked for.
pub open spec fn no_options() -> CaptureOptions {
    CaptureOptions {
        target: None,
        label: None,
        ttl_seconds: DEFAULT_TTL_SECONDS,
        single_use: true,
    }
}

/// The capture that is asked for.
pub open spec fn capture_asked(args: Seq<Seq<char>>) -> Result<CaptureModel, Seq<char>> {
    match capture_options(args, 2, no_options()) {
        Err(e) => Err(e),
        Ok(read) => match (read.target, read.label) {
            (None, _) => Err("target is required"@),
            (Some(_), None) => Err("label is required"@),
            (Some(target), Some(label)) => Ok(
                CaptureModel {
                    target,
                    label,
                    ttl_seconds: read.ttl_seconds,
                    single_use: read.single_use,
                },
            ),
        },
    }
}

/// The first place of a flag among the arguments.
pub open spec fn flag_at(args: Seq<Seq<char>>, flag: Seq<char>, i: int) -> bool {
    0 <= i < args.len() && args[i] == flag && forall|j: int|
        0 <= j < i ==> #[trigger] args[j] != flag
}

/// What stands behind the first occurrence of a flag, and whether the flag is
/// there at all.
pub open spec fn flag_value(args: Seq<Seq<char>>, flag: Seq<char>) -> Option<Option<Seq<char>>> {
    if exists|i: int| flag_at(args, flag, i) {
        let i = choose|i: int| flag_at(args, flag, i);
        Some(argument(args, i + 1))
    } else {
        None
    }
}

/// The run that is asked for: both flags have to be there before the value of
/// either is missed.
pub open spec fn run_asked(args: Seq<Seq<char>>) -> Result<CliModel, Seq<char>> {
    match (flag_value(args, "--handle"@), flag_value(args, "--operation"@)) {
        (None, _) => Err("handle is required"@),
        (Some(_), None) => Err("operation is required"@),
        (Some(handle), Some(operation)) => match (handle, operation) {
            (None, _) => Err("handle is required"@),
            (Some(_), None) => Err("operation is required"@),
            (Some(h), Some(o)) => Ok(CliModel::Run { handle: h, operation: o }),
        },
    }
}

/// What the command line asks for.
pub open spec fn cli_asked(args: Seq<Seq<char>>) -> Result<CliModel, Seq<char>> {
    match argument(args, 1) {
        None => Ok(CliModel::Serve),
        Some(command) => if command == "serve"@ {
            Ok(CliModel::Serve)
        } else if command == "capture"@ {
            match capture_asked(args) {
                Ok(request) => Ok(CliModel::Capture(request)),
                Err(e) => Err(e),
            }
        } else if command == "status"@ {
            Ok(CliModel::Status { wanted: argument(args, 2) })
        } else if command == "delete"@ {
            match argument(args, 2) {
                Some(handle) => Ok(CliModel::Delete { handle }),
                None => Err("handle is required"@),
            }
        } else if command == "run"@ {
            run_asked(args)
        } else {
            Err("commands: serve, capture, status, delete, run"@)
        },
    }
}

fn argument_at(args: &Vec<String>, i: usize) -> (text: Option<String>)
    ensures
        optional_text(text) == argument(texts(args@), i as int),
{
    if i < args.len() {
        Some(args[i].clone())
    } else {
        None
    }
}

fn parse_capture(args: &Vec<String>) -> (result: Result<CaptureRequest, String>)
    ensures
        match result {
            Ok(request) => capture_asked(texts(args@)) == Ok::<CaptureModel, Seq<char>>(request@),
            Err(e) => capture_asked(texts(args@)) == Err::<CaptureModel, Seq<char>>(e@),
        },
{
    let mut target: Option<String> = None;
    let mut label: Option<String> = None;
    let mut ttl_seconds: u64 = DEFAULT_TTL_SECONDS;
    let mut single_use = true;
    let n: usize = args.len();
    let mut i: usize = 2;
    let ghost all = texts(args@);
    while i < n
        invariant
            n == args@.len(),
            all == texts(args@),
            capture_options(all, 2, no_options()) == capture_options(
                all,
                i as int,
                CaptureOptions {
                    target: optional_text(target),
                    label: optional_text(label),
                    ttl_seconds,
                    single_use,
                },
            ),
        decreases n - i,
    {
        proof {
            reveal_with_fuel(capture_options, 2);
        }
        let word = args[i].as_str();
        let next: usize = i + 1;
        let behind: usize = if next < n {
            next + 1
        } else {
            n
        };
        if same_text(word, "--target") {
            target = argument_at(args, next);
            i = behind;
        } else if same_text(word, "--label") {
            label = argument_at(args, next);
            i = behind;
        } else if same_text(word, "--ttl-seconds") {
            match argument_at(args, next) {
                None => {
                    return Err("ttl_seconds is required".to_owned());
                },
                Some(text) => match parse_unsigned(text.as_str(), u64::MAX) {
                    None => {
                        return Err("ttl_seconds must be an integer".to_owned());
                    },
                    Some(ttl) => {
                        ttl_seconds = ttl;
                    },
                },
            }
            i = behind;
        } else if same_text(word, "--reusable") {
            single_use = false;
            i = next;
        } else {
            return Err("unknown capture argument".to_owned());
        }
    }
    match (target, label) {
        (None, _) => Err("target is required".to_owned()),
        (Some(_), None) => Err("label is required".to_owned()),
        (Some(target), Some(label)) => Ok(
            CaptureRequest { target, label, ttl_seconds, single_use },
        ),
    }
}

fn value_behind(args: &Vec<String>, flag: &str) -> (value: Option<Option<String>>)
    ensures
        match value {
            Some(v) => flag_value(texts(args@), flag@) == Some(optional_text(v)),
            None => flag_value(texts(args@), flag@) is None,
        },
{
    let n: usize = args.len();
    let ghost all = texts(args@);
    for i in 0..n
        invariant
            n == args@.len(),
            all == texts(args@),
            forall|j: int| 0 <= j < i ==> #[trigger] all[j] != flag@,
    {
        if same_text(args[i].as_str(), flag) {
            proof {
                assert(all[i as int] == flag@);
                assert(flag_at(all, flag@, i as int));
                let chosen = choose|k: int| flag_at(all, flag@, k);
                if chosen < i {
                    assert(all[chosen] != flag@);
                }
                if chosen > i {
                    assert(all[i as int] != flag@);
                }
            }
            return Some(argument_at(args, i + 1));
        }
    }
    None
}

fn parse_run(args: &Vec<String>) -> (result: Result<CliRequest, String>)
    ensures
        match result {
            Ok(request) => run_asked(texts(args@)) == Ok::<CliModel, Seq<char>>(request@),
            Err(e) => run_asked(texts(args@)) == Err::<CliModel, Seq<char>>(e@),
        },
{
    match (value_behind(args, "--handle"), value_behind(args, "--operation")) {
        (None, _) => Err("handle is required".to_owned()),
        (Some(_), None) => Err("operation is required".to_owned()),
        (Some(handle), Some(operation)) => match (handle, operation) {
            (None, _) => Err("handle is required".to_owned()),
            (Some(_), None) => Err("operation is required".to_owned()),
            (Some(handle), Some(operation)) => Ok(CliRequest::Run { handle, operation }),
        },
    }
}

/// What the command line asks for.
pub fn parse_cli(args: &Vec<String>) -> (result: Result<CliRequest, String>)
    ensures
        match result {
            Ok(request) => cli_asked(texts(args@)) == Ok::<CliModel, Seq<char>>(request@),
            Err(e) => cli_asked(texts(args@)) == Err::<CliModel, Seq<char>>(e@),
        },
{
    if args.len() < 2 {
        return Ok(CliRequest::Serve);
    }
    let command = args[1].as_str();
    if same_text(command, "serve") {
        Ok(CliRequest::Serve)
    } else if same_text(command, "capture") {
        match parse_capture(args) {
            Ok(request) => Ok(CliRequest::Capture(request)),
            Err(e) => Err(e),
        }
    } else if same_text(command, "status") {
        Ok(CliRequest::Status { wanted: argument_at(args, 2) })
    } else if same_text(command, "delete") {
        match argument_at(args, 2) {
            Some(handle) => Ok(CliRequest::Delete { handle }),
            None => Err("handle is required".to_owned()),
        }
    } else if same_text(command, "run") {
        parse_run(args)
    } else {
        Err("commands: serve, capture, status, delete, run".to_owned())
    }
}

// ---------------------------------------------------------------------------
// Tools
// ---------------------------------------------------------------------------

/// What a tool does.
#[derive(Debug, Clone, Copy, PartialEq, Eq, Structural)]
pub enum ToolKind {
    Capture,
    Status,
    Delete,
    Run,
}

/// The tool that goes by a name.
pub open spec fn tool_named(name: Seq<char>) -> Option<ToolKind> {
    if name == "secret_handoff_capture"@ {
        Some(ToolKind::Capture)
    } else if name == "secret_handoff_status"@ {
        Some(ToolKind::Status)
    } else if name == "secret_handoff_delete"@ {
        Some(ToolKind::Delete)
    } else if name == "secret_handoff_run"@ {
        Some(ToolKind::Run)
    } else {
        None
    }
}

/// The tool that goes by a name.
pub fn tool_kind(name: &str) -> (kind: Option<ToolKind>)
    ensures
        kind == tool_named(name@),
{
    if same_text(name, "secret_handoff_capture") {
        Some(ToolKind::Capture)
    } else if same_text(name, "secret_handoff_status") {
        Some(ToolKind::Status)
    } else if same_text(name, "secret_handoff_delete") {
        Some(ToolKind::Delete)
    } else if same_text(name, "secret_handoff_run") {
        Some(ToolKind::Run)
    } else {
        None
    }
}

/// What clients are told of a tool.
#[derive(Debug)]
pub struct ToolDescription {
    pub kind: ToolKind,
    pub name: String,
    pub description: String,
    pub read_only: bool,
    pub destructive: bool,
    pub idempotent: bool,
    pub open_world: bool,
}

/// The name of a tool.
pub open spec fn tool_name(kind: ToolKind) -> Seq<char> {
    match kind {
        ToolKind::Capture => "secret_handoff_capture"@,
        ToolKind::Status => "secret_handoff_status"@,
        ToolKind::Delete => "secret_handoff_delete"@,
        ToolKind::Run => "secret_handoff_run"@,
    }
}

/// What a tool does, in words.
pub open spec fn tool_text(kind: ToolKind) -> Seq<char> {
    match kind {
        ToolKind::Capture =>
            "Open a local trusted GUI prompt, store the secret in the OS keyring, and return only an opaque handle."@,
        ToolKind::Status =>
            "Read redacted handles and lifecycle metadata; never returns secret material."@,
        ToolKind::Delete =>
            "Revoke one exact handle and remove its keyring entry, retrying cleanup if the provider is temporarily unavailable."@,
        ToolKind::Run =>
            "Run one locally configured trusted command with a handle injected into its configured environment variable."@,
    }
}

/// What clients are told of a tool. Only the status is read-only; deleting and
/// running cannot be undone; asking for the status and deleting may be repeated;
/// and only a run reaches beyond this machine.
pub open spec fn tool_described(kind: ToolKind, told: ToolDescription) -> bool {
    &&& told.kind == kind
    &&& told.name@ == tool_name(kind)
    &&& told.description@ == tool_text(kind)
    &&& told.read_only == (kind == ToolKind::Status)
    &&& told.destructive == (kind == ToolKind::Delete || kind == ToolKind::Run)
    &&& told.idempotent == (kind == ToolKind::Status || kind == ToolKind::Delete)
    &&& told.open_world == (kind == ToolKind::Run)
}

/// What clients are told of a tool.
pub fn describe_tool(kind: ToolKind) -> (told: ToolDescription)
    ensures
        tool_described(kind, told),
{
    let (name, description) = match kind {
        ToolKind::Capture => (
            "secret_handoff_capture",
            "Open a local trusted GUI prompt, store the secret in the OS keyring, and return only an opaque handle.",
        ),
        ToolKind::Status => (
            "secret_handoff_status",
            "Read redacted handles and lifecycle metadata; never returns secret material.",
        ),
        ToolKind::Delete => (
            "secret_handoff_delete",
            "Revoke one exact handle and remove its keyring entry, retrying cleanup if the provider is temporarily unavailable.",
        ),
        ToolKind::Run => (
            "secret_handoff_run",
            "Run one locally configured trusted command with a handle injected into its configured environment variable.",
        ),
    };
    ToolDescription {
        kind,
        name: name.to_owned(),
        description: description.to_owned(),
        read_only: matches!(kind, ToolKind::Status),
        destructive: matches!(kind, ToolKind::Delete | ToolKind::Run),
        idempotent: matches!(kind, ToolKind::Status | ToolKind::Delete),
        open_world: matches!(kind, ToolKind::Run),
    }
}

/// The kinds of a list of tools.
pub open spec fn kinds(list: Seq<ToolDescription>) -> Seq<ToolKind> {
    list.map(|i: int, tool: ToolDescription| tool.kind)
}

/// All tools.
pub fn tool_catalog() -> (list: Vec<ToolDescription>)
    ensures
        kinds(list@) == seq![
            ToolKind::Capture,
            ToolKind::Status,
            ToolKind::Delete,
            ToolKind::Run,
        ],
        forall|i: int|
            0 <= i < list@.len() ==> tool_described(list@[i].kind, #[trigger] list@[i]),
{
    let list = vec![
        describe_tool(ToolKind::Capture),
        describe_tool(ToolKind::Status),
        describe_tool(ToolKind::Delete),
        describe_tool(ToolKind::Run),
    ];
    assert(kinds(list@) =~= seq![
        ToolKind::Capture,
        ToolKind::Status,
        ToolKind::Delete,
        ToolKind::Run,
    ]);
    list
}

/// Every tool that is listed is found under its name.
pub proof fn law_listed_tools_are_found(kind: ToolKind)
    ensures
        tool_named(tool_name(kind)) == Some(kind),
{
    reveal_strlit("secret_handoff_capture");
    reveal_strlit("secret_handoff_status");
    reveal_strlit("secret_handoff_delete");
    reveal_strlit("secret_handoff_run");
    assert("secret_handoff_capture"@.len() == 22);
    assert("secret_handoff_status"@.len() == 21);
    assert("secret_handoff_delete"@.len() == 21);
    assert("secret_handoff_run"@.len() == 18);
    assert("secret_handoff_status"@[15] == 's' && "secret_handoff_delete"@[15] == 'd');
}

/// Whether a tool counts among the captures and runs that go on at one time. All
/// others, also those that nobody knows, count among the rest.
pub fn takes_work_slot(kind: Option<ToolKind>) -> (r: bool)
    ensures
        r == (kind == Some(ToolKind::Capture) || kind == Some(ToolKind::Run)),
{
    matches!(kind, Some(ToolKind::Capture) | Some(ToolKind::Run))
}

/// Whether leftovers are cleaned up before a tool does its work.
pub fn reconciles_first(kind: ToolKind) -> (r: bool)
    ensures
        r == (kind != ToolKind::Status),
{
    !matches!(kind, ToolKind::Status)
}

/// What is told of arguments that a tool does not understand.
pub open spec fn argument_error(kind: ToolKind) -> Seq<char> {
    match kind {
        ToolKind::Capture =>
            "invalid capture arguments; check documented field names and types"@,
        ToolKind::Status => "invalid status arguments; check documented field names and types"@,
        ToolKind::Delete => "invalid delete arguments; check documented field names and types"@,
        ToolKind::Run => "invalid run arguments; check documented field names and types"@,
    }
}

/// What is told of arguments that a tool does not understand.
pub fn invalid_arguments(kind: ToolKind) -> (text: &'static str)
    ensures
        text@ == argument_error(kind),
{
    match kind {
        ToolKind::Capture =>
            "invalid capture arguments; check documented field names and types",
        ToolKind::Status => "invalid status arguments; check documented field names and types",
        ToolKind::Delete => "invalid delete arguments; check documented field names and types",
        ToolKind::Run => "invalid run arguments; check documented field names and types",
    }
}

/// What is told when the work of a tool broke down.
pub open spec fn worker_error(kind: ToolKind) -> Seq<char> {
    match kind {
        ToolKind::Capture => "capture worker failed"@,
        ToolKind::Status => "status worker failed"@,
        ToolKind::Delete => "delete worker failed"@,
        ToolKind::Run => "run worker failed"@,
    }
}

/// What is told when the work of a tool broke down.
pub fn failed_worker(kind: ToolKind) -> (text: &'static str)
    ensures
        text@ == worker_error(kind),
{
    match kind {
        ToolKind::Capture => "capture worker failed",
        ToolKind::Status => "status worker failed",
        ToolKind::Delete => "delete worker failed",
        ToolKind::Run => "run worker failed",
    }
}

/// Whether arguments of this size are taken.
pub fn check_argument_size(size: usize) -> (result: Result<(), String>)
    ensures
        verdict(
            result,
            if size > MAX_TOOL_ARGUMENT_BYTES {
                Some("tool arguments exceed the configured limit"@)
            } else {
                None
            },
        ),
{
    if size > MAX_TOOL_ARGUMENT_BYTES {
        return Err("tool arguments exceed the configured limit".to_owned());
    }
    Ok(())
}

/// The capture that a tool is asked for: a handle is for a single use and lives
/// for a while unless something else is asked for.
pub fn capture_request(
    target: String,
    label: String,
    ttl_seconds: Option<u64>,
    single_use: Option<bool>,
) -> (request: CaptureRequest)
    ensures
        request@ == (CaptureModel {
            target: target@,
            label: label@,
            ttl_seconds: match ttl_seconds {
                Some(ttl) => ttl,
                None => DEFAULT_TTL_SECONDS,
            },
            single_use: match single_use {
                Some(once) => once,
                None => true,
            },
        }),
{
    let ttl: u64 = match ttl_seconds {
        Some(ttl) => ttl,
        None => DEFAULT_TTL_SECONDS,
    };
    let once = match single_use {
        Some(once) => once,
        None => true,
    };
    CaptureRequest { target, label, ttl_seconds: ttl, single_use: once }
}

/// Handles are for a single use unless it is asked for otherwise: on the command
/// line only the flag for it makes one that can be used again.
pub proof fn law_single_use_is_the_default(args: Seq<Seq<char>>, request: CaptureModel)
    requires
        capture_asked(args) == Ok::<CaptureModel, Seq<char>>(request),
        !args.contains("--reusable"@),
    ensures
        request.single_use,
{
    lemma_single_use_is_kept(args, 2, no_options());
}

proof fn lemma_single_use_is_kept(args: Seq<Seq<char>>, i: int, read: CaptureOptions)
    requires
        i >= 0,
        !args.contains("--reusable"@),
        read.single_use,
    ensures
        capture_options(args, i, read) matches Ok(all) ==> all.single_use,
    decreases args.len() + 2 - i,
{
    if i < args.len() {
        assert(args[i] != "--reusable"@);
        lemma_single_use_is_kept(
            args,
            i + 2,
            CaptureOptions { target: argument(args, i + 1), ..read },
        );
        lemma_single_use_is_kept(
            args,
            i + 2,
            CaptureOptions { label: argument(args, i + 1), ..read },
        );
        if argument(args, i + 1) is Some {
            let text = argument(args, i + 1)->0;
            if unsigned_value(text, u64::MAX as nat) is Some {
                lemma_single_use_is_kept(
                    args,
                    i + 2,
                    CaptureOptions {
                        ttl_seconds: unsigned_value(text, u64::MAX as nat)->0 as u64,
                        ..read
                    },
                );
            }
        }
    }
}

/// Something that is asked for when a secret is captured on the command line.
pub enum CaptureWish {
    Target(Seq<char>),
    Label(Seq<char>),
    Seconds(Seq<char>),
    Reusable,
}

/// How a wish is written on the command line.
pub open spec fn wish_written(wish: CaptureWish) -> Seq<Seq<char>> {
    match wish {
        CaptureWish::Target(text) => seq!["--target"@, text],
        CaptureWish::Label(text) => seq!["--label"@, text],
        CaptureWish::Seconds(text) => seq!["--ttl-seconds"@, text],
        CaptureWish::Reusable => seq!["--reusable"@],
    }
}

/// How wishes are written on the command line, one behind the other.
pub open spec fn wishes_written(wishes: Seq<CaptureWish>) -> Seq<Seq<char>>
    decreases wishes.len(),
{
    if wishes.len() == 0 {
        Seq::empty()
    } else {
        wish_written(wishes[0]) + wishes_written(wishes.skip(1))
    }
}

/// Whether all times among some wishes are numbers.
pub open spec fn times_are_numbers(wishes: Seq<CaptureWish>) -> bool {
    forall|i: int|
        0 <= i < wishes.len() ==> (#[trigger] wishes[i] matches CaptureWish::Seconds(text)
            ==> unsigned_value(text, u64::MAX as nat) is Some)
}

/// The last target, the last label and the last time among some wishes.
pub open spec fn last_target(wishes: Seq<CaptureWish>, before: Option<Seq<char>>) -> Option<Seq<char>>
    decreases wishes.len(),
{
    if wishes.len() == 0 {
        before
    } else {
        last_target(
            wishes.skip(1),
            if wishes[0] is Target {
                Some(wishes[0]->Target_0)
            } else {
                before
            },
        )
    }
}

/// The last label among some wishes.
pub open spec fn last_label(wishes: Seq<CaptureWish>, before: Option<Seq<char>>) -> Option<Seq<char>>
    decreases wishes.len(),
{
    if wishes.len() == 0 {
        before
    } else {
        last_label(
            wishes.skip(1),
            if wishes[0] is Label {
                Some(wishes[0]->Label_0)
            } else {
                before
            },
        )
    }
}

/// The last time among some wishes.
pub open spec fn last_seconds(wishes: Seq<CaptureWish>, before: u64) -> u64
    decreases wishes.len(),
{
    if wishes.len() == 0 {
        before
    } else {
        last_seconds(
            wishes.skip(1),
            if wishes[0] is Seconds {
                unsigned_value(wishes[0]->Seconds_0, u64::MAX as nat)->0 as u64
            } else {
                before
            },
        )
    }
}

/// Whether a handle is asked for that can be used again.
pub open spec fn asks_for_reuse(wishes: Seq<CaptureWish>) -> bool {
    exists|i: int| 0 <= i < wishes.len() && #[trigger] wishes[i] is Reusable
}

proof fn lemma_flags_differ()
    ensures
        "--target"@ != "--label"@,
        "--target"@ != "--ttl-seconds"@,
        "--target"@ != "--reusable"@,
        "--label"@ != "--ttl-seconds"@,
        "--label"@ != "--reusable"@,
        "--ttl-seconds"@ != "--reusable"@,
{
    reveal_strlit("--target");
    reveal_strlit("--label");
    reveal_strlit("--ttl-seconds");
    reveal_strlit("--reusable");
    assert("--target"@.len() == 8 && "--label"@.len() == 7);
    assert("--ttl-seconds"@.len() == 13 && "--reusable"@.len() == 10);
}

proof fn lemma_wishes_are_read(
    head: Seq<Seq<char>>,
    wishes: Seq<CaptureWish>,
    tail: Seq<Seq<char>>,
    read: CaptureOptions,
)
    requires
        times_are_numbers(wishes),
    ensures
        capture_options(head + wishes_written(wishes) + tail, head.len() as int, read)
            == capture_options(
            head + wishes_written(wishes) + tail,
            (head + wishes_written(wishes)).len() as int,
            CaptureOptions {
                target: last_target(wishes, read.target),
                label: last_label(wishes, read.label),
                ttl_seconds: last_seconds(wishes, read.ttl_seconds),
                single_use: read.single_use && !asks_for_reuse(wishes),
            },
        ),
    decreases wishes.len(),
{
    let args = head + wishes_written(wishes) + tail;
    if wishes.len() == 0 {
        assert(head + wishes_written(wishes) =~= head);
        assert(!asks_for_reuse(wishes));
    } else {
        lemma_flags_differ();
        let rest = wishes.skip(1);
        let longer = head + wish_written(wishes[0]);
        assert(head + wishes_written(wishes) =~= longer + wishes_written(rest));
        let i = head.len() as int;
        assert(args[i] == wish_written(wishes[0])[0]);
        if !(wishes[0] is Reusable) {
            assert(args[i + 1] == wish_written(wishes[0])[1]);
        }
        let next = CaptureOptions {
            target: if wishes[0] is Target {
                Some(wishes[0]->Target_0)
            } else {
                read.target
            },
            label: if wishes[0] is Label {
                Some(wishes[0]->Label_0)
            } else {
                read.label
            },
            ttl_seconds: if wishes[0] is Seconds {
                unsigned_value(wishes[0]->Seconds_0, u64::MAX as nat)->0 as u64
            } else {
                read.ttl_seconds
            },
            single_use: read.single_use && !(wishes[0] is Reusable),
        };
        assert forall|k: int| 0 <= k < rest.len() implies (#[trigger] rest[k] matches
            CaptureWish::Seconds(text) ==> unsigned_value(text, u64::MAX as nat) is Some) by {
            assert(rest[k] == wishes[k + 1]);
        }
        assert(capture_options(args, i, read) == capture_options(args, longer.len() as int, next));
        lemma_wishes_are_read(longer, rest, tail, next);
        assert(asks_for_reuse(wishes) <==> wishes[0] is Reusable || asks_for_reuse(rest)) by {
            if asks_for_reuse(rest) {
                let k = choose|k: int| 0 <= k < rest.len() && #[trigger] rest[k] is Reusable;
                assert(wishes[k + 1] is Reusable);
            }
            if asks_for_reuse(wishes) && !(wishes[0] is Reusable) {
                let k = choose|k: int| 0 <= k < wishes.len() && #[trigger] wishes[k] is Reusable;
                assert(rest[k - 1] is Reusable);
            }
        }
    }
}

/// What is wished for on the command line is what is captured: the last target, the last
/// label and the last time, a quarter of an hour where none is given, and for a single
/// use unless reuse is asked for. A capture without a target or a label is refused.
pub proof fn law_wishes_are_read_from_the_command_line(
    program: Seq<char>,
    wishes: Seq<CaptureWish>,
)
    requires
        times_are_numbers(wishes),
    ensures
        ({
            let args = seq![program, "capture"@] + wishes_written(wishes);
            let target = last_target(wishes, None);
            let label = last_label(wishes, None);
            cli_asked(args) == if target is None {
                Err::<CliModel, Seq<char>>("target is required"@)
            } else if label is None {
                Err("label is required"@)
            } else {
                Ok(
                    CliModel::Capture(
                        CaptureModel {
                            target: target->0,
                            label: label->0,
                            ttl_seconds: last_seconds(wishes, 900),
                            single_use: !asks_for_reuse(wishes),
                        },
                    ),
                )
            }
        }),
{
    let head = seq![program, "capture"@];
    let none = Seq::<Seq<char>>::empty();
    let args = head + wishes_written(wishes);
    assert(args + none =~= args);
    lemma_wishes_are_read(head, wishes, none, no_options());
    assert(args[1] == "capture"@);
    reveal_strlit("serve");
    reveal_strlit("capture");
    assert("serve"@.len() == 5 && "capture"@.len() == 7);
}

/// What is not understood behind wishes is told: a flag that nobody knows, a time that is
/// missing, and one that is no number.
pub proof fn law_unknown_wishes_are_refused(
    program: Seq<char>,
    wishes: Seq<CaptureWish>,
    word: Seq<char>,
    tail: Seq<Seq<char>>,
)
    requires
        times_are_numbers(wishes),
    ensures
        ({
            let head = seq![program, "capture"@] + wishes_written(wishes);
            let unknown = word != "--target"@ && word != "--label"@ && word != "--ttl-seconds"@
                && word != "--reusable"@;
            &&& unknown ==> cli_asked(head + (seq![word] + tail)) == Err::<CliModel, Seq<char>>(
                "unknown capture argument"@,
            )
            &&& cli_asked(head + seq!["--ttl-seconds"@]) == Err::<CliModel, Seq<char>>(
                "ttl_seconds is required"@,
            )
            &&& unsigned_value(word, u64::MAX as nat) is None ==> cli_asked(
                head + (seq!["--ttl-seconds"@, word] + tail),
            ) == Err::<CliModel, Seq<char>>("ttl_seconds must be an integer"@)
        }),
{
    let start = seq![program, "capture"@];
    let head = start + wishes_written(wishes);
    let i = head.len() as int;
    let first = seq![word] + tail;
    let second = seq!["--ttl-seconds"@];
    let third = seq!["--ttl-seconds"@, word] + tail;
    lemma_flags_differ();
    lemma_wishes_are_read(start, wishes, first, no_options());
    lemma_wishes_are_read(start, wishes, second, no_options());
    lemma_wishes_are_read(start, wishes, third, no_options());
    assert((head + first)[i] == word && (head + first)[1] == "capture"@);
    assert((head + second)[i] == "--ttl-seconds"@ && (head + second)[1] == "capture"@);
    assert((head + third)[i] == "--ttl-seconds"@ && (head + third)[i + 1] == word);
    assert((head + third)[1] == "capture"@);
    reveal_strlit("serve");
    reveal_strlit("capture");
    assert("serve"@.len() == 5 && "capture"@.len() == 7);
}

/// Whether a flag stands at a place and nowhere before it.
pub open spec fn first_flag(args: Seq<Seq<char>>, flag: Seq<char>, i: int) -> bool {
    0 <= i < args.len() && args[i] == flag && forall|j: int|
        0 <= j < i ==> #[trigger] args[j] != flag
}

/// A run is asked for with a handle and an operation, each behind the first of its flags;
/// a status with a handle or without one; a deletion with a handle; and without a command
/// the tools are served.
pub proof fn law_commands_are_understood(args: &Vec<String>, result: Result<CliRequest, String>)
    requires
        call_ensures(parse_cli, (args,), result),
    ensures
        ({
            let words = texts(args@);
            &&& words.len() < 2 ==> result is Ok && result->Ok_0@ is Serve
            &&& words.len() >= 2 && words[1] == "serve"@ ==> result is Ok && result->Ok_0@ is Serve
            &&& words.len() >= 2 && words[1] == "status"@ ==> result is Ok && result->Ok_0@ == (
            CliModel::Status {
                wanted: if words.len() > 2 {
                    Some(words[2])
                } else {
                    None
                },
            })
            &&& words.len() > 2 && words[1] == "delete"@ ==> result is Ok && result->Ok_0@ == (
            CliModel::Delete { handle: words[2] })
            &&& words.len() == 2 && words[1] == "delete"@ ==> result is Err && result->Err_0@
                == "handle is required"@
            &&& words.len() >= 2 && words[1] == "run"@ ==> forall|h: int, o: int| #[trigger]
                first_flag(words, "--handle"@, h) && #[trigger] first_flag(words, "--operation"@, o)
                    ==> {
                    &&& h + 1 < words.len() && o + 1 < words.len() ==> result is Ok && result->Ok_0@
                        == (CliModel::Run { handle: words[h + 1], operation: words[o + 1] })
                    &&& h + 1 == words.len() ==> result is Err && result->Err_0@
                        == "handle is required"@
                    &&& h + 1 < words.len() && o + 1 == words.len() ==> result is Err
                        && result->Err_0@ == "operation is required"@
                }
            &&& words.len() >= 2 && words[1] == "run"@ && !words.contains("--handle"@)
                ==> result is Err && result->Err_0@ == "handle is required"@
            &&& words.len() >= 2 && words[1] == "run"@ && words.contains("--handle"@)
                && !words.contains("--operation"@) ==> result is Err && result->Err_0@
                == "operation is required"@
            &&& words.len() >= 2 && words[1] != "serve"@ && words[1] != "capture"@ && words[1]
                != "status"@ && words[1] != "delete"@ && words[1] != "run"@ ==> result is Err
                && result->Err_0@ == "commands: serve, capture, status, delete, run"@
        }),
{
    let words = texts(args@);
    reveal_strlit("serve");
    reveal_strlit("capture");
    reveal_strlit("status");
    reveal_strlit("delete");
    reveal_strlit("run");
    assert("serve"@.len() == 5 && "capture"@.len() == 7 && "status"@.len() == 6);
    assert("delete"@.len() == 6 && "run"@.len() == 3);
    assert("status"@[0] == 's' && "delete"@[0] == 'd');
    assert forall|h: int| #[trigger] first_flag(words, "--handle"@, h) implies flag_value(
        words,
        "--handle"@,
    ) == Some(argument(words, h + 1)) by {
        lemma_first_flag(words, "--handle"@, h);
    }
    assert forall|o: int| #[trigger] first_flag(words, "--operation"@, o) implies flag_value(
        words,
        "--operation"@,
    ) == Some(argument(words, o + 1)) by {
        lemma_first_flag(words, "--operation"@, o);
    }
    if words.contains("--handle"@) {
        lemma_contained_flag(words, "--handle"@);
    }
}

proof fn lemma_first_flag(args: Seq<Seq<char>>, flag: Seq<char>, i: int)
    requires
        first_flag(args, flag, i),
    ensures
        flag_value(args, flag) == Some(argument(args, i + 1)),
{
    assert(flag_at(args, flag, i));
    let k = choose|k: int| flag_at(args, flag, k);
    if k < i {
        assert(args[k] != flag);
    }
    if i < k {
        assert(args[i] != flag);
    }
}

proof fn lemma_contained_flag(args: Seq<Seq<char>>, flag: Seq<char>)
    requires
        args.contains(flag),
    ensures
        flag_value(args, flag) is Some,
    decreases args.len(),
{
    let i = args.index_of_first(flag)->0;
    args.index_of_first_ensures(flag);
    assert(flag_at(args, flag, i));
}

/// Four tools are listed, each under its own name, and no other name is known. Only the
/// status is read-only; deletions and runs destroy; the status and deletions may be
/// repeated; and only runs reach beyond this machine.
pub proof fn law_tools_are_what_they_say(
    name: &str,
    known: Option<ToolKind>,
    kind: ToolKind,
    told: ToolDescription,
    list: Vec<ToolDescription>,
)
    requires
        call_ensures(tool_kind, (name,), known),
        call_ensures(describe_tool, (kind,), told),
        call_ensures(tool_catalog, (), list),
    ensures
        known is Some <==> name@ == "secret_handoff_capture"@ || name@ == "secret_handoff_status"@
            || name@ == "secret_handoff_delete"@ || name@ == "secret_handoff_run"@,
        name@ == "secret_handoff_capture"@ ==> known == Some(ToolKind::Capture),
        name@ == "secret_handoff_status"@ ==> known == Some(ToolKind::Status),
        name@ == "secret_handoff_delete"@ ==> known == Some(ToolKind::Delete),
        name@ == "secret_handoff_run"@ ==> known == Some(ToolKind::Run),
        told.kind == kind,
        told.name@ == match kind {
            ToolKind::Capture => "secret_handoff_capture"@,
            ToolKind::Status => "secret_handoff_status"@,
            ToolKind::Delete => "secret_handoff_delete"@,
            ToolKind::Run => "secret_handoff_run"@,
        },
        told.read_only <==> kind is Status,
        told.destructive <==> kind is Delete || kind is Run,
        told.idempotent <==> kind is Status || kind is Delete,
        told.open_world <==> kind is Run,
        told.description@ == match kind {
            ToolKind::Capture =>
                "Open a local trusted GUI prompt, store the secret in the OS keyring, and return only an opaque handle."@,
            ToolKind::Status =>
                "Read redacted handles and lifecycle metadata; never returns secret material."@,
            ToolKind::Delete =>
                "Revoke one exact handle and remove its keyring entry, retrying cleanup if the provider is temporarily unavailable."@,
            ToolKind::Run =>
                "Run one locally configured trusted command with a handle injected into its configured environment variable."@,
        },
        list@.len() == 4,
        list@[0].kind is Capture && list@[1].kind is Status && list@[2].kind is Delete
            && list@[3].kind is Run,
{
    law_listed_tools_are_found(ToolKind::Capture);
    law_listed_tools_are_found(ToolKind::Status);
    law_listed_tools_are_found(ToolKind::Delete);
    law_listed_tools_are_found(ToolKind::Run);
    let all = seq![ToolKind::Capture, ToolKind::Status, ToolKind::Delete, ToolKind::Run];
    assert(kinds(list@).len() == 4);
    assert(kinds(list@)[0] == all[0] && kinds(list@)[1] == all[1]);
    assert(kinds(list@)[2] == all[2] && kinds(list@)[3] == all[3]);
}

/// Captures and runs share four slots and everything else two; leftovers are cleaned up
/// before everything but a status; and arguments of more than sixty-four kibibytes are
/// refused.
pub proof fn law_requests_are_bounded(
    known: Option<ToolKind>,
    kind: ToolKind,
    size: usize,
    work: bool,
    first: bool,
    result: Result<(), String>,
)
    requires
        call_ensures(takes_work_slot, (known,), work),
        call_ensures(reconciles_first, (kind,), first),
        call_ensures(check_argument_size, (size,), result),
    ensures
        work <==> known is Some && (known->0 is Capture || known->0 is Run),
        first <==> kind is Capture || kind is Delete || kind is Run,
        result is Ok <==> size <= 65_536,
        result matches Err(e) ==> e@ == "tool arguments exceed the configured limit"@,
        MAX_CONCURRENT_OPERATIONS == 4,
        MAX_CONCURRENT_CONTROL_OPERATIONS == 2,
{
}

/// What is told of a tool that failed names the tool.
pub proof fn law_failed_tools_are_named(kind: ToolKind, arguments: &'static str, worker: &'static str)
    requires
        call_ensures(invalid_arguments, (kind,), arguments),
        call_ensures(failed_worker, (kind,), worker),
    ensures
        kind is Capture ==> worker@ == "capture worker failed"@ && arguments@
            == "invalid capture arguments; check documented field names and types"@,
        kind is Status ==> worker@ == "status worker failed"@ && arguments@
            == "invalid status arguments; check documented field names and types"@,
        kind is Delete ==> worker@ == "delete worker failed"@ && arguments@
            == "invalid delete arguments; check documented field names and types"@,
        kind is Run ==> worker@ == "run worker failed"@ && arguments@
            == "invalid run arguments; check documented field names and types"@,
{
}

/// A tool captures what it is asked to: for a quarter of an hour and for a single use
/// where nothing else is said.
pub proof fn law_tools_capture_what_they_are_asked(
    target: String,
    label: String,
    ttl_seconds: Option<u64>,
    single_use: Option<bool>,
    request: CaptureRequest,
)
    requires
        call_ensures(capture_request, (target, label, ttl_seconds, single_use), request),
    ensures
        request.target@ == target@,
        request.label@ == label@,
        ttl_seconds matches Some(seconds) ==> request.ttl_seconds == seconds,
        ttl_seconds is None ==> request.ttl_seconds == 900,
        request.single_use <==> single_use != Some(false),
{
}

} // verus!
