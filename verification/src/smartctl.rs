//! Invoking `smartctl` and checking what it replies.
//!
//! smartctl is run with `--json`; its reply is an object that carries the
//! JSON format version, details of the invocation (smartctl's own version
//! among them) and, flattened beside them, the requested output. Two ways of
//! running it are offered: through `sudo` ([`SudoInvoker`]), or by replaying
//! replies that were saved to files ([`FileInvoker`]).

pub mod scan;

use vstd::prelude::*;
use vstd::string::*;

use crate::text::{
    decimal, join_strings, join_with, push_decimal, strings_view, u64_to_decimal,
};

verus! {

// ---------------------------------------------------------------------------
// The reply
// ---------------------------------------------------------------------------

/// A complete smartctl reply whose requested part is of type `O`.
#[derive(Debug)]
pub struct Output<O> {
    /// The version of smartctl's JSON format, such as `[1, 0]`.
    pub json_format_version: Vec<u8>,
    /// How smartctl was invoked, and its version.
    pub smartctl: InvocationDetails,
    /// The requested output.
    pub output: O,
}

/// The `smartctl` object of a reply.
#[derive(Debug)]
pub struct InvocationDetails {
    pub version_details: Version,
    pub argv: Vec<String>,
    pub exit_status: u8,
}

/// smartctl's version, as it reports it.
#[derive(Debug)]
pub struct Version {
    /// The version number, such as `[7, 4]`.
    pub version: Vec<u8>,
    pub svn_revision: String,
    pub platform_info: String,
}

/// The JSON format version that this exporter was written for.
pub open spec fn supported_json_format_version() -> Seq<u8> {
    seq![1u8, 0u8]
}

/// Whether a reply's JSON format version is the supported one.
pub fn is_supported_json_format_version(version: &Vec<u8>) -> (b: bool)
    ensures
        b == (version@ == supported_json_format_version()),
{
    let r = version.len() == 2 && version[0] == 1 && version[1] == 0;
    proof {
        if r {
            assert(version@ =~= supported_json_format_version());
        }
    }
    r
}

/// A version number written out with dots, such as `1.0` or `7.4`.
pub open spec fn dotted(v: Seq<u8>) -> Seq<char>
    decreases v.len(),
{
    if v.len() == 0 {
        seq![]
    } else if v.len() == 1 {
        decimal(v[0] as nat)
    } else {
        dotted(v.drop_last()) + seq!['.'] + decimal(v.last() as nat)
    }
}

/// Writes a version number with dots between its parts.
pub fn format_dotted(v: &Vec<u8>) -> (s: String)
    ensures
        s@ == dotted(v@),
{
    let mut s = String::new();
    let n = v.len();
    for i in 0..n
        invariant
            n == v@.len(),
            s@ == dotted(v@.take(i as int)),
    {
        assert(v@.take(i + 1).drop_last() =~= v@.take(i as int));
        if i != 0 {
            s.push('.');
        }
        push_decimal(&mut s, v[i] as u64);
    }
    assert(v@.take(n as int) =~= v@);
    s
}

/// The start of the warning that is given for a reply in an unknown format.
pub open spec fn unknown_format_warning_prefix() -> Seq<char> {
    "warning: unkown JSON output format from smartctl: "@
}

/// The warning that is given for a reply in format `version`, if any.
pub open spec fn format_warning(version: Seq<u8>) -> Option<Seq<char>> {
    if version == supported_json_format_version() {
        None
    } else {
        Some(unknown_format_warning_prefix() + dotted(version))
    }
}

/// What a parsed reply yields: the requested output, smartctl's version, and
/// a warning to print when the reply is in a JSON format version other than
/// the supported one. The reply is accepted either way.
pub fn accept_output<O>(parsed: Output<O>) -> (r: (O, Version, Option<String>))
    ensures
        r.0 == parsed.output,
        r.1 == parsed.smartctl.version_details,
        r.2 is None <==> format_warning(parsed.json_format_version@) is None,
        r.2 matches Some(w) ==> Some(w@) == format_warning(parsed.json_format_version@),
{
    let warning = if is_supported_json_format_version(&parsed.json_format_version) {
        None
    } else {
        let mut w = String::from_str("warning: unkown JSON output format from smartctl: ");
        let v = format_dotted(&parsed.json_format_version);
        w.append(v.as_str());
        Some(w)
    };
    (parsed.output, parsed.smartctl.version_details, warning)
}

/// The message of a failed smartctl run.
pub open spec fn execution_failure(
    command: Seq<char>,
    status: Seq<char>,
    stdout: Seq<char>,
    stderr: Seq<char>,
) -> Seq<char> {
    "failed to execute "@ + command + ": "@ + status + "\n"@ + stdout + "\n"@ + stderr
}

/// Checks how a smartctl run ended: a run that did not succeed is an error
/// whose message shows the command, its exit status and both its outputs.
pub fn check_exit_status(
    success: bool,
    command: &str,
    status: &str,
    stdout: &str,
    stderr: &str,
) -> (r: Result<(), String>)
    ensures
        success <==> r is Ok,
        r matches Err(m) ==> m@ == execution_failure(command@, status@, stdout@, stderr@),
{
    if success {
        Ok(())
    } else {
        let mut m = String::from_str("failed to execute ");
        m.append(command);
        m.append(": ");
        m.append(status);
        m.append("\n");
        m.append(stdout);
        m.append("\n");
        m.append(stderr);
        Err(m)
    }
}

/// The context given to an error in parsing a reply, naming the JSON path at
/// which parsing failed.
pub fn parse_failure_context(json_path: &str) -> (m: String)
    ensures
        m@ == "failed to parse smartctl output, JSON path: "@ + json_path@,
{
    let mut m = String::from_str("failed to parse smartctl output, JSON path: ");
    m.append(json_path);
    m
}

// ---------------------------------------------------------------------------
// Commands
// ---------------------------------------------------------------------------

/// A command to run: the program, the only environment variable it gets
/// (`PATH`), and its arguments.
#[derive(Debug)]
pub struct CommandSpec {
    pub program: String,
    pub path_env: String,
    pub args: Vec<String>,
}

/// The `PATH` that smartctl is run with; the environment is otherwise empty.
pub open spec fn command_path_env() -> Seq<char> {
    "/bin/:/sbin/:/usr/bin/:/usr/sbin/"@
}

fn command_path() -> (s: String)
    ensures
        s@ == command_path_env(),
{
    String::from_str("/bin/:/sbin/:/usr/bin/:/usr/sbin/")
}

fn push_all(v: &mut Vec<String>, extra: &Vec<String>)
    ensures
        strings_view(final(v)@) == strings_view(old(v)@) + strings_view(extra@),
{
    let n = extra.len();
    for i in 0..n
        invariant
            n == extra@.len(),
            strings_view(v@) == strings_view(old(v)@) + strings_view(extra@.take(i as int)),
    {
        let ghost prev = v@;
        v.push(extra[i].clone());
        assert(strings_view(v@) =~= strings_view(prev).push(extra@[i as int]@));
        assert(strings_view(extra@.take(i + 1)) =~= strings_view(extra@.take(i as int)).push(
            extra@[i as int]@,
        ));
        assert(strings_view(v@) =~= strings_view(old(v)@) + strings_view(extra@.take(i + 1)));
    }
    assert(extra@.take(n as int) =~= extra@);
}

/// Runs smartctl through `sudo`, so that the exporter itself need not run as
/// root.
#[derive(Debug)]
pub struct SudoInvoker {}

/// The arguments that `sudo` is given before smartctl's own.
pub open spec fn sudo_prefix_args() -> Seq<Seq<char>> {
    seq!["--non-interactive"@, "--"@, "smartctl"@, "--json"@]
}

impl SudoInvoker {
    /// The command that runs `smartctl --json` with `args` through
    /// `sudo --non-interactive`.
    pub fn construct_command(&mut self, args: &Vec<String>) -> (c: CommandSpec)
        ensures
            c.program@ == "sudo"@,
            c.path_env@ == command_path_env(),
            strings_view(c.args@) == sudo_prefix_args() + strings_view(args@),
    {
        let mut v: Vec<String> = Vec::new();
        v.push(String::from_str("--non-interactive"));
        v.push(String::from_str("--"));
        v.push(String::from_str("smartctl"));
        v.push(String::from_str("--json"));
        assert(strings_view(v@) =~= sudo_prefix_args());
        push_all(&mut v, args);
        CommandSpec { program: String::from_str("sudo"), path_env: command_path(), args: v }
    }
}


// ---------------------------------------------------------------------------
// Replaying saved replies
// ---------------------------------------------------------------------------

/// Whether `c` is an ASCII letter or digit (`char::is_ascii_alphanumeric`).
pub open spec fn is_ascii_alphanumeric(c: char) -> bool {
    ('0' <= c && c <= '9') || ('a' <= c && c <= 'z') || ('A' <= c && c <= 'Z')
}

/// A character as it appears in a file name: ASCII letters and digits stay,
/// everything else becomes `_`.
pub open spec fn sanitize(c: char) -> char {
    if is_ascii_alphanumeric(c) {
        c
    } else {
        '_'
    }
}

/// The arguments, each followed by `_`.
pub open spec fn underscore_terminated(args: Seq<Seq<char>>) -> Seq<char>
    decreases args.len(),
{
    if args.len() == 0 {
        seq![]
    } else {
        underscore_terminated(args.drop_last()) + args.last() + seq!['_']
    }
}

/// The file name under which the reply to `args` is saved: the arguments,
/// each followed by `_`, with every character that is not an ASCII letter or
/// digit replaced by `_`, and the last character removed.
pub open spec fn normalized_args(args: Seq<Seq<char>>) -> Seq<char> {
    let s = underscore_terminated(args).map_values(|c: char| sanitize(c));
    if s.len() == 0 {
        s
    } else {
        s.drop_last()
    }
}

fn sanitize_char(c: char) -> (r: char)
    ensures
        r == sanitize(c),
{
    if ('0' <= c && c <= '9') || ('a' <= c && c <= 'z') || ('A' <= c && c <= 'Z') {
        c
    } else {
        '_'
    }
}

proof fn lemma_map_append(a: Seq<char>, b: Seq<char>)
    ensures
        (a + b).map_values(|c: char| sanitize(c)) == a.map_values(|c: char| sanitize(c))
            + b.map_values(|c: char| sanitize(c)),
{
    assert((a + b).map_values(|c: char| sanitize(c)) =~= a.map_values(|c: char| sanitize(c))
        + b.map_values(|c: char| sanitize(c)));
}


/// The total number of characters of the arguments.
pub open spec fn total_len(args: Seq<Seq<char>>) -> nat
    decreases args.len(),
{
    if args.len() == 0 {
        0
    } else {
        total_len(args.drop_last()) + args.last().len()
    }
}

proof fn lemma_underscore_terminated(args: Seq<Seq<char>>)
    ensures
        underscore_terminated(args).len() == total_len(args) + args.len(),
        args.len() > 0 ==> underscore_terminated(args).last() == '_',
    decreases args.len(),
{
    if args.len() > 0 {
        lemma_underscore_terminated(args.drop_last());
    }
}

/// The file name of a saved reply holds only ASCII letters, digits and `_`,
/// and has one character per character of the arguments plus one `_`
/// between each two arguments.
pub proof fn lemma_normalized_args_shape(args: Seq<Seq<char>>)
    ensures
        forall|i: int|
            0 <= i < normalized_args(args).len() ==> {
                let c = #[trigger] normalized_args(args)[i];
                is_ascii_alphanumeric(c) || c == '_'
            },
        args.len() == 0 ==> normalized_args(args).len() == 0,
        args.len() > 0 ==> normalized_args(args).len() == total_len(args) + args.len() - 1,
{
    lemma_underscore_terminated(args);
}

/// The reply to a single argument is saved under that argument, with every
/// character that is not an ASCII letter or digit replaced by `_`; an
/// argument of ASCII letters and digits alone is its own file name.
pub proof fn lemma_normalized_single_arg(a: Seq<char>)
    ensures
        normalized_args(seq![a]) == a.map_values(|c: char| sanitize(c)),
        (forall|i: int| 0 <= i < a.len() ==> is_ascii_alphanumeric(#[trigger] a[i]))
            ==> normalized_args(seq![a]) == a,
{
    let args = seq![a];
    assert(args.drop_last() =~= Seq::<Seq<char>>::empty());
    assert(underscore_terminated(Seq::<Seq<char>>::empty()) =~= Seq::<char>::empty());
    assert(args.last() == a);
    assert(underscore_terminated(args) =~= a + seq!['_']);
    lemma_map_append(a, seq!['_']);
    assert(normalized_args(args) =~= a.map_values(|c: char| sanitize(c)));
    if forall|i: int| 0 <= i < a.len() ==> is_ascii_alphanumeric(#[trigger] a[i]) {
        assert(a.map_values(|c: char| sanitize(c)) =~= a);
    }
}


proof fn lemma_terminated_is_joined(args: Seq<Seq<char>>)
    requires
        args.len() > 0,
    ensures
        underscore_terminated(args) == join_with(args, seq!['_']) + seq!['_'],
    decreases args.len(),
{
    if args.len() > 1 {
        lemma_terminated_is_joined(args.drop_last());
    } else {
        assert(args.drop_last() =~= Seq::<Seq<char>>::empty());
        assert(underscore_terminated(Seq::<Seq<char>>::empty()) =~= Seq::<char>::empty());
    }
}

/// The file name of a saved reply is the arguments joined with `_`, with
/// every character that is not an ASCII letter (either case) or digit
/// replaced by `_`: character for character, whatever the number of
/// arguments.
pub proof fn lemma_normalized_args_joined(args: Seq<Seq<char>>)
    ensures
        normalized_args(args).len() == join_with(args, seq!['_']).len(),
        forall|i: int|
            0 <= i < normalized_args(args).len() ==> #[trigger] normalized_args(args)[i] == {
                let c = join_with(args, seq!['_'])[i];
                if ('0' <= c && c <= '9') || ('a' <= c && c <= 'z') || ('A' <= c && c <= 'Z') {
                    c
                } else {
                    '_'
                }
            },
{
    if args.len() == 0 {
        assert(underscore_terminated(args) =~= Seq::<char>::empty());
        assert(normalized_args(args) =~= Seq::<char>::empty());
    } else {
        lemma_terminated_is_joined(args);
        let j = join_with(args, seq!['_']);
        lemma_map_append(j, seq!['_']);
        assert(normalized_args(args) =~= j.map_values(|c: char| sanitize(c)));
    }
}

/// The file name under which the reply to `args` is saved.
pub fn normalize_args(args: &Vec<String>) -> (s: String)
    ensures
        s@ == normalized_args(strings_view(args@)),
{
    let ghost all = strings_view(args@);
    let mut s = String::new();
    let n = args.len();
    for i in 0..n
        invariant
            n == args@.len(),
            all == strings_view(args@),
            s@ == underscore_terminated(all.take(i as int)).map_values(|c: char| sanitize(c)),
    {
        let a = args[i].as_str();
        let ghost before = s@;
        let len = a.unicode_len();
        for j in 0..len
            invariant
                len == a@.len(),
                s@ == before + a@.take(j as int).map_values(|c: char| sanitize(c)),
        {
            let c = a.get_char(j);
            s.push(sanitize_char(c));
            assert(a@.take(j + 1).map_values(|c: char| sanitize(c)) =~= a@.take(
                j as int,
            ).map_values(|c: char| sanitize(c)).push(sanitize(c)));
        }
        s.push('_');
        proof {
            assert(a@.take(len as int) =~= a@);
            assert(all.take(i + 1).drop_last() =~= all.take(i as int));
            assert(all[i as int] == a@);
            let t = underscore_terminated(all.take(i as int));
            lemma_map_append(t, a@);
            lemma_map_append(t + a@, seq!['_']);
            assert(seq!['_'].map_values(|c: char| sanitize(c)) =~= seq!['_']);
        }
    }
    assert(all.take(n as int) =~= all);
    s.pop();
    s
}

/// The path that `Path::join` makes of `base` and `component`.
pub uninterp spec fn spec_path_join(base: Seq<char>, component: Seq<char>) -> Seq<char>;

/// The path that `Path::with_extension` makes of `path` and `extension`.
pub uninterp spec fn spec_path_with_extension(path: Seq<char>, extension: Seq<char>) -> Seq<char>;

/// Calls `std::path::Path::join`. The contract claims only that the result
/// is a function of the two arguments, named `spec_path_join`: for UTF-8
/// input `join` builds its result from the bytes of its arguments and `/`, so
/// the lossy conversion back to a string loses nothing. What the function
/// computes (the separator, an absolute component replacing the base) is not
/// stated.
#[verifier::external_body]
fn path_join(base: &str, component: &str) -> (r: String)
    ensures
        r@ == spec_path_join(base@, component@),
{
    std::path::Path::new(base).join(component).to_string_lossy().into_owned()
}

/// Whether `s` holds no path separator (`/`, nor `\\`, which is one on
/// some targets).
pub open spec fn no_path_separator(s: Seq<char>) -> bool {
    forall|i: int| 0 <= i < s.len() ==> s[i] != '/' && s[i] != '\\'
}

/// Calls `std::path::Path::with_extension`, which panics when the extension
/// holds a path separator; such extensions are not admitted. The contract
/// claims only that the result is a function of the two arguments, named
/// `spec_path_with_extension`; which extension is replaced and where the new
/// one is placed is not stated.
#[verifier::external_body]
fn path_with_extension(path: &str, extension: &str) -> (r: String)
    requires
        no_path_separator(extension@),
    ensures
        r@ == spec_path_with_extension(path@, extension@),
{
    std::path::Path::new(path).with_extension(extension).to_string_lossy().into_owned()
}

/// Replays smartctl replies that were saved to files, instead of running
/// smartctl.
///
/// The reply to the arguments `args` is looked up under the file name
/// [`normalized_args`]`(args)`, first in the sub-directory named after the
/// current iteration and then in `base` itself, with the extensions `stdout`,
/// `stderr` and `exit` for the two outputs and the exit status.
#[derive(Debug)]
pub struct FileInvoker {
    pub iteration: usize,
    pub base: String,
}

/// The two places where one saved file may stand.
#[derive(Debug)]
pub struct OutputFile {
    /// Under the sub-directory of the current iteration.
    pub indexed: String,
    /// Directly under the base directory.
    pub unindexed: String,
}

/// The places of the three files of a saved reply.
#[derive(Debug)]
pub struct OutputFiles {
    pub stdout: OutputFile,
    pub stderr: OutputFile,
    pub exit: OutputFile,
}

/// Which of the two places of a saved file hold a file.
#[derive(Debug, Clone, Copy)]
pub struct FilePresence {
    pub indexed: bool,
    pub unindexed: bool,
}

/// Which places of the three files of a saved reply hold a file.
#[derive(Debug, Clone, Copy)]
pub struct OutputPresence {
    pub stdout: FilePresence,
    pub stderr: FilePresence,
    pub exit: FilePresence,
}

/// The two places of the file with extension `extension` for the file name
/// `name`, below `base` in iteration `iteration`.
pub open spec fn output_file_spec(
    base: Seq<char>,
    iteration: nat,
    name: Seq<char>,
    extension: Seq<char>,
) -> (Seq<char>, Seq<char>) {
    (
        spec_path_with_extension(
            spec_path_join(base, decimal(iteration) + "/"@ + name),
            extension,
        ),
        spec_path_with_extension(spec_path_join(base, name), extension),
    )
}

/// The place that is used of the two: the indexed one where it holds a file,
/// else the unindexed one.
pub open spec fn chosen_path(f: OutputFile, p: FilePresence) -> Seq<char> {
    if p.indexed {
        f.indexed@
    } else {
        f.unindexed@
    }
}

/// Whether the place that is used holds a file.
pub open spec fn chosen_present(p: FilePresence) -> bool {
    p.indexed || p.unindexed
}

/// `part` as a one-element sequence where `present`, else nothing.
pub open spec fn part_if(present: bool, part: Seq<char>) -> Seq<Seq<char>> {
    if present {
        seq![part]
    } else {
        seq![]
    }
}

/// The shell script that replays a saved reply: it prints the saved standard
/// output, prints the saved standard error to standard error, and exits with
/// the saved status, each only where its file is present.
pub open spec fn replay_script(files: OutputFiles, presence: OutputPresence) -> Seq<char> {
    join_with(
        part_if(chosen_present(presence.stdout), "cat "@ + chosen_path(files.stdout, presence.stdout))
            + part_if(
            chosen_present(presence.stderr),
            "cat "@ + chosen_path(files.stderr, presence.stderr) + " 1>&2"@,
        ) + part_if(
            chosen_present(presence.exit),
            "exit $(cat "@ + chosen_path(files.exit, presence.exit) + ")"@,
        ),
        "; "@,
    )
}


/// What the replay script holds, output by output: the script prints the
/// saved standard output, prints the saved standard error to standard error
/// and exits with the saved status, in that order, each exactly when one of
/// its two files is present, each reading the file of the iteration folder
/// when that one is present and else the one of the base folder, the parts
/// separated by `; `.
pub proof fn lemma_replay_script_parts(files: OutputFiles, presence: OutputPresence)
    ensures
        ({
            let out = if presence.stdout.indexed {
                files.stdout.indexed@
            } else {
                files.stdout.unindexed@
            };
            let err = if presence.stderr.indexed {
                files.stderr.indexed@
            } else {
                files.stderr.unindexed@
            };
            let ex = if presence.exit.indexed {
                files.exit.indexed@
            } else {
                files.exit.unindexed@
            };
            let has_out = presence.stdout.indexed || presence.stdout.unindexed;
            let has_err = presence.stderr.indexed || presence.stderr.unindexed;
            let has_ex = presence.exit.indexed || presence.exit.unindexed;
            let p_out = "cat "@ + out;
            let p_err = "cat "@ + err + " 1>&2"@;
            let p_ex = "exit $(cat "@ + ex + ")"@;
            let script = replay_script(files, presence);
            &&& has_out && has_err && has_ex ==> script == p_out + "; "@ + p_err + "; "@ + p_ex
            &&& has_out && has_err && !has_ex ==> script == p_out + "; "@ + p_err
            &&& has_out && !has_err && has_ex ==> script == p_out + "; "@ + p_ex
            &&& !has_out && has_err && has_ex ==> script == p_err + "; "@ + p_ex
            &&& has_out && !has_err && !has_ex ==> script == p_out
            &&& !has_out && has_err && !has_ex ==> script == p_err
            &&& !has_out && !has_err && has_ex ==> script == p_ex
            &&& !has_out && !has_err && !has_ex ==> script == Seq::<char>::empty()
        }),
{
    let a = "cat "@ + chosen_path(files.stdout, presence.stdout);
    let b = "cat "@ + chosen_path(files.stderr, presence.stderr) + " 1>&2"@;
    let c = "exit $(cat "@ + chosen_path(files.exit, presence.exit) + ")"@;
    let sep = "; "@;
    let parts = part_if(chosen_present(presence.stdout), a) + part_if(
        chosen_present(presence.stderr),
        b,
    ) + part_if(chosen_present(presence.exit), c);
    assert(replay_script(files, presence) == join_with(parts, sep));
    crate::text::lemma_join_small(a, b, c, sep);
    crate::text::lemma_join_small(a, c, c, sep);
    crate::text::lemma_join_small(b, c, c, sep);
    crate::text::lemma_join_small(b, b, b, sep);
    crate::text::lemma_join_small(c, c, c, sep);
    let x = chosen_present(presence.stdout);
    let y = chosen_present(presence.stderr);
    let z = chosen_present(presence.exit);
    if x && y && z {
        assert(parts =~= seq![a, b, c]);
    } else if x && y {
        assert(parts =~= seq![a, b]);
    } else if x && z {
        assert(parts =~= seq![a, c]);
    } else if y && z {
        assert(parts =~= seq![b, c]);
    } else if x {
        assert(parts =~= seq![a]);
    } else if y {
        assert(parts =~= seq![b]);
    } else if z {
        assert(parts =~= seq![c]);
    } else {
        assert(parts =~= Seq::<Seq<char>>::empty());
    }
}

fn choose_path(f: &OutputFile, p: FilePresence) -> (r: &String)
    ensures
        r@ == chosen_path(*f, p),
{
    if p.indexed {
        &f.indexed
    } else {
        &f.unindexed
    }
}

impl FileInvoker {
    /// A replaying invoker that reads below `base`, starting at iteration 0.
    pub fn new(base: &str) -> (r: FileInvoker)
        ensures
            r.iteration == 0,
            r.base@ == base@,
    {
        FileInvoker { iteration: 0, base: base.to_owned() }
    }

    fn output_file(&self, name: &str, extension: &str) -> (f: OutputFile)
        requires
            no_path_separator(extension@),
        ensures
            (f.indexed@, f.unindexed@) == output_file_spec(
                self.base@,
                self.iteration as nat,
                name@,
                extension@,
            ),
    {
        let mut sub = u64_to_decimal(self.iteration as u64);
        sub.append("/");
        sub.append(name);
        let indexed = path_join(self.base.as_str(), sub.as_str());
        let unindexed = path_join(self.base.as_str(), name);
        OutputFile {
            indexed: path_with_extension(indexed.as_str(), extension),
            unindexed: path_with_extension(unindexed.as_str(), extension),
        }
    }

    /// The places where the saved reply to `args` may stand.
    pub fn output_files(&self, args: &Vec<String>) -> (files: OutputFiles)
        ensures
            (files.stdout.indexed@, files.stdout.unindexed@) == output_file_spec(
                self.base@,
                self.iteration as nat,
                normalized_args(strings_view(args@)),
                "stdout"@,
            ),
            (files.stderr.indexed@, files.stderr.unindexed@) == output_file_spec(
                self.base@,
                self.iteration as nat,
                normalized_args(strings_view(args@)),
                "stderr"@,
            ),
            (files.exit.indexed@, files.exit.unindexed@) == output_file_spec(
                self.base@,
                self.iteration as nat,
                normalized_args(strings_view(args@)),
                "exit"@,
            ),
    {
        let name = normalize_args(args);
        proof {
            reveal_strlit("stdout");
            reveal_strlit("stderr");
            reveal_strlit("exit");
        }
        OutputFiles {
            stdout: self.output_file(name.as_str(), "stdout"),
            stderr: self.output_file(name.as_str(), "stderr"),
            exit: self.output_file(name.as_str(), "exit"),
        }
    }

    /// The command that replays a saved reply, given which of the places in
    /// `files` hold a file: `sh -c` with the [`replay_script`].
    pub fn construct_command(&self, files: &OutputFiles, presence: OutputPresence) -> (c:
        CommandSpec)
        ensures
            c.program@ == "sh"@,
            c.path_env@ == command_path_env(),
            strings_view(c.args@) == seq!["-c"@, replay_script(*files, presence)],
    {
        let mut parts: Vec<String> = Vec::new();
        if presence.stdout.indexed || presence.stdout.unindexed {
            let mut p = String::from_str("cat ");
            p.append(choose_path(&files.stdout, presence.stdout).as_str());
            parts.push(p);
        }
        if presence.stderr.indexed || presence.stderr.unindexed {
            let mut p = String::from_str("cat ");
            p.append(choose_path(&files.stderr, presence.stderr).as_str());
            p.append(" 1>&2");
            parts.push(p);
        }
        if presence.exit.indexed || presence.exit.unindexed {
            let mut p = String::from_str("exit $(cat ");
            p.append(choose_path(&files.exit, presence.exit).as_str());
            p.append(")");
            parts.push(p);
        }
        assert(strings_view(parts@) =~= part_if(
            chosen_present(presence.stdout),
            "cat "@ + chosen_path(files.stdout, presence.stdout),
        ) + part_if(
            chosen_present(presence.stderr),
            "cat "@ + chosen_path(files.stderr, presence.stderr) + " 1>&2"@,
        ) + part_if(
            chosen_present(presence.exit),
            "exit $(cat "@ + chosen_path(files.exit, presence.exit) + ")"@,
        ));
        let script = join_strings(&parts, "; ");
        let mut args: Vec<String> = Vec::new();
        args.push(String::from_str("-c"));
        args.push(script);
        assert(strings_view(args@) =~= seq!["-c"@, replay_script(*files, presence)]);
        CommandSpec { program: String::from_str("sh"), path_env: command_path(), args }
    }
}

} // verus!
