//! The decisions around the FFmpeg tools: where to look for them, what to run,
//! how to read what they print, and how to check and report the downloads
//! that install them.
use vstd::prelude::*;
use crate::outside::{json_from_slice, json_parse, lossy_text, url_parse, url_parse_result, utf8_lossy};
use crate::text::{
    concat2, concat3, concat4, decimal_text, decimal_usize, ends_with_char, first_line,
    first_line_spec, header_is_text, is_visible_ascii, latin_bytes, lemma_decimal_bytes_are_digits,
    lemma_first_line_whole,
    lemma_parse_decimal_roundtrip, parse_usize, parse_usize_spec, str_eq,
};

verus! {

/// The views of a list of strings.
pub open spec fn texts(v: Seq<String>) -> Seq<Seq<char>> {
    v.map_values(|s: String| s@)
}

/// The operating systems the converter distinguishes.
#[derive(Clone, Copy, Debug, PartialEq, Eq, Structural)]
pub enum Platform {
    Windows,
    MacOs,
    Linux,
    Other,
}

/// The name under which a command is looked for: Windows adds `.exe`.
pub open spec fn executable_name_spec(cmd: Seq<char>, windows: bool) -> Seq<char> {
    if windows {
        cmd + ".exe"@
    } else {
        cmd
    }
}

/// The name under which `cmd` is looked for on the search path and in the
/// application's data directory.
pub fn executable_name(cmd: &str, windows: bool) -> (r: String)
    ensures
        r@ == executable_name_spec(cmd@, windows),
{
    if windows {
        concat2(cmd, ".exe")
    } else {
        String::from_str(cmd)
    }
}

/// The well-known places where FFmpeg's tools are installed; other commands have none.
pub open spec fn common_locations_spec(cmd: Seq<char>) -> Seq<Seq<char>> {
    if cmd == "ffmpeg"@ || cmd == "ffprobe"@ {
        seq!["C:/ffmpeg/bin/"@ + cmd + ".exe"@, "/usr/bin/"@ + cmd, "/usr/local/bin/"@ + cmd]
    } else {
        Seq::empty()
    }
}

/// The fixed paths tried for `cmd` after the search path, in order.
pub fn common_locations(cmd: &str) -> (r: Vec<String>)
    ensures
        texts(r@) == common_locations_spec(cmd@),
{
    let mut r: Vec<String> = Vec::new();
    if str_eq(cmd, "ffmpeg") || str_eq(cmd, "ffprobe") {
        r.push(concat3("C:/ffmpeg/bin/", cmd, ".exe"));
        r.push(concat2("/usr/bin/", cmd));
        r.push(concat2("/usr/local/bin/", cmd));
    }
    assert(texts(r@) =~= common_locations_spec(cmd@));
    r
}

/// One question the executable search asks of the outside world.
pub enum Probe {
    /// Is this name on the search path (`which`)?
    SearchPath(String),
    /// Does this fixed path exist?
    Location(String),
    /// Can the application's local data directory be found?
    AppDataDir,
    /// Does this file exist in the application's local data directory?
    InAppDataDir(String),
}

/// A probe as text.
pub enum ProbeModel {
    SearchPath(Seq<char>),
    Location(Seq<char>),
    AppDataDir,
    InAppDataDir(Seq<char>),
}

impl View for Probe {
    type V = ProbeModel;

    open spec fn view(&self) -> ProbeModel {
        match self {
            Probe::SearchPath(s) => ProbeModel::SearchPath(s@),
            Probe::Location(s) => ProbeModel::Location(s@),
            Probe::AppDataDir => ProbeModel::AppDataDir,
            Probe::InAppDataDir(s) => ProbeModel::InAppDataDir(s@),
        }
    }
}

/// The questions asked for `cmd`, in order: the search path, the common
/// locations, then the application's data directory and the file in it.
pub open spec fn probe_plan(cmd: Seq<char>, windows: bool) -> Seq<ProbeModel> {
    seq![ProbeModel::SearchPath(executable_name_spec(cmd, windows))]
        + common_locations_spec(cmd).map_values(|p: Seq<char>| ProbeModel::Location(p))
        + seq![ProbeModel::AppDataDir, ProbeModel::InAppDataDir(executable_name_spec(cmd, windows))]
}

/// What the search does after an answer.
pub enum SearchStep {
    /// Ask this question next.
    Ask(Probe),
    /// The place the last question was about holds the executable.
    Found,
    /// The search is over without a result; the error to report.
    Failed(String),
}

/// A search step as text.
pub enum StepModel {
    Ask(ProbeModel),
    Found,
    Failed(Seq<char>),
}

impl View for SearchStep {
    type V = StepModel;

    open spec fn view(&self) -> StepModel {
        match self {
            SearchStep::Ask(p) => StepModel::Ask(p@),
            SearchStep::Found => StepModel::Found,
            SearchStep::Failed(e) => StepModel::Failed(e@),
        }
    }
}

/// The error reported when the application's data directory cannot be found.
pub open spec fn app_data_dir_error_spec() -> Seq<char> {
    "Unable to get app data directory"@
}

/// The error reported when the application's data directory cannot be found.
pub fn app_data_dir_error() -> (r: String)
    ensures
        r@ == app_data_dir_error_spec(),
{
    String::from_str("Unable to get app data directory")
}

/// The error reported when no place holds the command.
pub open spec fn not_found_error_spec(cmd: Seq<char>) -> Seq<char> {
    cmd + " not found"@
}

/// The step after answer `hit` to question `k` of the plan: a hit ends the
/// search, except on the directory question, whose hit leads on to the file
/// in it; a missing directory ends it with its own error; otherwise the next
/// question follows, and after the last one the command is not found.
pub open spec fn search_step_spec(cmd: Seq<char>, windows: bool, k: int, hit: bool) -> StepModel {
    let plan = probe_plan(cmd, windows);
    if hit && plan[k] != ProbeModel::AppDataDir {
        StepModel::Found
    } else if !hit && plan[k] == ProbeModel::AppDataDir {
        StepModel::Failed(app_data_dir_error_spec())
    } else if k + 1 < plan.len() {
        StepModel::Ask(plan[k + 1])
    } else {
        StepModel::Failed(not_found_error_spec(cmd))
    }
}

/// Where a search stands after `answers`, given from question `k` on: the
/// next question while it goes on, otherwise how it ended.
pub open spec fn search_run_from(cmd: Seq<char>, windows: bool, k: int, answers: Seq<bool>) -> StepModel
    decreases answers.len(),
{
    if answers.len() == 0 {
        StepModel::Ask(probe_plan(cmd, windows)[k])
    } else {
        let s = search_step_spec(cmd, windows, k, answers[0]);
        if s is Ask {
            search_run_from(cmd, windows, k + 1, answers.drop_first())
        } else {
            s
        }
    }
}

/// Where a search for `cmd` stands after the given answers.
pub open spec fn search_run(cmd: Seq<char>, windows: bool, answers: Seq<bool>) -> StepModel {
    search_run_from(cmd, windows, 0, answers)
}

proof fn lemma_run_extend(cmd: Seq<char>, windows: bool, k: int, a: Seq<bool>, h: bool)
    requires
        0 <= k,
        k + a.len() < probe_plan(cmd, windows).len(),
        search_run_from(cmd, windows, k, a) == StepModel::Ask(probe_plan(cmd, windows)[k + a.len()]),
    ensures
        search_run_from(cmd, windows, k, a.push(h)) == search_step_spec(cmd, windows, k + a.len(), h),
    decreases a.len(),
{
    if a.len() == 0 {
        assert(a.push(h).drop_first() =~= Seq::<bool>::empty());
        assert(a.push(h)[0] == h);
        assert(search_run_from(cmd, windows, k + 1, Seq::<bool>::empty()) == StepModel::Ask(
            probe_plan(cmd, windows)[k + 1],
        ));
    } else {
        let s = search_step_spec(cmd, windows, k, a[0]);
        assert(a.push(h)[0] == a[0]);
        assert(a.push(h).drop_first() =~= a.drop_first().push(h));
        if s is Ask {
            assert(search_run_from(cmd, windows, k, a) == search_run_from(
                cmd,
                windows,
                k + 1,
                a.drop_first(),
            ));
            lemma_run_extend(cmd, windows, k + 1, a.drop_first(), h);
            assert(search_run_from(cmd, windows, k, a.push(h)) == search_run_from(
                cmd,
                windows,
                k + 1,
                a.push(h).drop_first(),
            ));
        }
    }
}

/// The search for an executable, one question at a time.
pub struct ExecutableSearch {
    cmd: String,
    windows: bool,
    name: String,
    locations: Vec<String>,
    position: usize,
    finished: bool,
    answers: Ghost<Seq<bool>>,
}

impl ExecutableSearch {
    /// The command searched for.
    pub closed spec fn command(&self) -> Seq<char> {
        self.cmd@
    }

    /// Whether the search looks for a Windows executable.
    pub closed spec fn for_windows(&self) -> bool {
        self.windows
    }

    /// The index in `probe_plan` of the question awaiting its answer.
    pub closed spec fn position(&self) -> int {
        self.position as int
    }

    /// Whether a question still awaits its answer.
    pub closed spec fn is_pending(&self) -> bool {
        !self.finished
    }

    /// The answers given so far, in order.
    pub closed spec fn answers(&self) -> Seq<bool> {
        self.answers@
    }

    /// The search's own consistency.
    pub closed spec fn wf(&self) -> bool {
        let plan = probe_plan(self.cmd@, self.windows);
        &&& self.name@ == executable_name_spec(self.cmd@, self.windows)
        &&& texts(self.locations@) == common_locations_spec(self.cmd@)
        &&& self.position < plan.len()
        &&& !self.finished ==> self.answers@.len() == self.position
        &&& !self.finished ==> search_run(self.cmd@, self.windows, self.answers@) == StepModel::Ask(
            plan[self.position as int],
        )
    }

    /// Starts a search for `cmd`; returns it with its first question, which
    /// is always the search path.
    pub fn new(cmd: &str, windows: bool) -> (r: (ExecutableSearch, Probe))
        ensures
            r.0.wf(),
            r.0.is_pending(),
            r.0.command() == cmd@,
            r.0.for_windows() == windows,
            r.0.position() == 0,
            r.0.answers() == Seq::<bool>::empty(),
            r.1@ == probe_plan(cmd@, windows)[0],
    {
        let name = executable_name(cmd, windows);
        let locations = common_locations(cmd);
        let probe = Probe::SearchPath(executable_name(cmd, windows));
        let search = ExecutableSearch {
            cmd: String::from_str(cmd),
            windows,
            name,
            locations,
            position: 0,
            finished: false,
            answers: Ghost(Seq::empty()),
        };
        (search, probe)
    }

    fn probe_at(&self, k: usize) -> (p: Probe)
        requires
            self.wf(),
            k < probe_plan(self.cmd@, self.windows).len(),
        ensures
            p@ == probe_plan(self.cmd@, self.windows)[k as int],
    {
        let n = self.locations.len();
        let ghost plan = probe_plan(self.cmd@, self.windows);
        assert(plan.len() == n + 3);
        if k == 0 {
            Probe::SearchPath(self.name.clone())
        } else if k <= n {
            assert(plan[k as int] == ProbeModel::Location(common_locations_spec(self.cmd@)[k - 1]));
            Probe::Location(self.locations[k - 1].clone())
        } else if k == n + 1 {
            Probe::AppDataDir
        } else {
            Probe::InAppDataDir(self.name.clone())
        }
    }

    /// Takes the answer to the pending question (`hit`: the place exists, or
    /// the directory was found) and says what comes next, as
    /// `search_step_spec` says; the step is also where `search_run` puts the
    /// search after all the answers given so far.
    pub fn advance(&mut self, hit: bool) -> (step: SearchStep)
        requires
            old(self).wf(),
            old(self).is_pending(),
        ensures
            final(self).wf(),
            final(self).command() == old(self).command(),
            final(self).for_windows() == old(self).for_windows(),
            final(self).answers() == old(self).answers().push(hit),
            step@ == search_step_spec(
                old(self).command(),
                old(self).for_windows(),
                old(self).position(),
                hit,
            ),
            step@ == search_run(final(self).command(), final(self).for_windows(), final(self).answers()),
            final(self).is_pending() == (step is Ask),
            step is Ask ==> final(self).position() == old(self).position() + 1,
    {
        let ghost plan = probe_plan(self.cmd@, self.windows);
        let ghost before = self.answers@;
        proof {
            lemma_run_extend(self.cmd@, self.windows, 0, before, hit);
        }
        self.answers = Ghost(before.push(hit));
        let n = self.locations.len();
        assert(plan.len() == n + 3);
        let k = self.position;
        let asking_dir = k == n + 1;
        assert(asking_dir == (plan[k as int] == ProbeModel::AppDataDir));
        if hit && !asking_dir {
            self.finished = true;
            SearchStep::Found
        } else if !hit && asking_dir {
            self.finished = true;
            SearchStep::Failed(app_data_dir_error())
        } else if k + 1 < n + 3 {
            self.position = k + 1;
            let p = self.probe_at(k + 1);
            SearchStep::Ask(p)
        } else {
            self.finished = true;
            SearchStep::Failed(concat2(self.cmd.as_str(), " not found"))
        }
    }
}

/// The answers under which the search misses every place before question
/// `i`: no to each place, yes to the directory question.
pub open spec fn misses_before(cmd: Seq<char>, windows: bool, i: int) -> Seq<bool> {
    Seq::new(i as nat, |j: int| probe_plan(cmd, windows)[j] == ProbeModel::AppDataDir)
}

proof fn lemma_run_misses(cmd: Seq<char>, windows: bool, k: int, a: Seq<bool>)
    requires
        0 <= k,
        k + a.len() < probe_plan(cmd, windows).len(),
        forall|j: int| 0 <= j < a.len() ==> #[trigger] a[j] == (probe_plan(cmd, windows)[k + j]
            == ProbeModel::AppDataDir),
    ensures
        search_run_from(cmd, windows, k, a) == StepModel::Ask(probe_plan(cmd, windows)[k + a.len()]),
    decreases a.len(),
{
    if a.len() > 0 {
        let t = a.drop_first();
        assert forall|j: int| 0 <= j < t.len() implies #[trigger] t[j] == (probe_plan(cmd, windows)[k
            + 1 + j] == ProbeModel::AppDataDir) by {
            assert(t[j] == a[j + 1]);
        }
        assert(a[0] == (probe_plan(cmd, windows)[k] == ProbeModel::AppDataDir));
        lemma_run_misses(cmd, windows, k + 1, t);
    }
}

/// Same command, same platform and same answers give the same result: the
/// outcome of a search depends on nothing else.
pub proof fn lemma_search_determined(cmd: Seq<char>, windows: bool, a1: Seq<bool>, a2: Seq<bool>)
    requires
        a1 == a2,
    ensures
        search_run(cmd, windows, a1) == search_run(cmd, windows, a2),
{
}

/// The search reports the first place that holds the executable: when every
/// place before question `i` misses (and the directory is there), a hit at
/// `i` finds it there.
pub proof fn lemma_search_finds_first_hit(cmd: Seq<char>, windows: bool, i: int)
    requires
        0 <= i < probe_plan(cmd, windows).len(),
        probe_plan(cmd, windows)[i] != ProbeModel::AppDataDir,
    ensures
        search_run(cmd, windows, misses_before(cmd, windows, i).push(true)) == StepModel::Found,
{
    let a = misses_before(cmd, windows, i);
    lemma_run_misses(cmd, windows, 0, a);
    lemma_run_extend(cmd, windows, 0, a, true);
}

/// When no place holds the executable (and the directory is there), the
/// search asks every question of the plan and reports `{cmd} not found`.
pub proof fn lemma_search_not_found(cmd: Seq<char>, windows: bool)
    ensures
        ({
            let n = probe_plan(cmd, windows).len() as int;
            search_run(cmd, windows, misses_before(cmd, windows, n - 1).push(false))
                == StepModel::Failed(not_found_error_spec(cmd))
        }),
{
    let n = probe_plan(cmd, windows).len() as int;
    let a = misses_before(cmd, windows, n - 1);
    lemma_run_misses(cmd, windows, 0, a);
    lemma_run_extend(cmd, windows, 0, a, false);
}

/// When the application's data directory cannot be found, the search ends
/// there with its own error, after missing every place before it.
pub proof fn lemma_search_no_app_dir(cmd: Seq<char>, windows: bool)
    ensures
        ({
            let n = probe_plan(cmd, windows).len() as int;
            search_run(cmd, windows, misses_before(cmd, windows, n - 2).push(false))
                == StepModel::Failed(app_data_dir_error_spec())
        }),
{
    let n = probe_plan(cmd, windows).len() as int;
    let a = misses_before(cmd, windows, n - 2);
    lemma_run_misses(cmd, windows, 0, a);
    lemma_run_extend(cmd, windows, 0, a, false);
}

/// What is logged when a tool is found: `Found {cmd} at {path}`.
pub fn found_message(cmd: &str, path: &str) -> (r: String)
    ensures
        r@ == "Found "@ + cmd@ + " at "@ + path@,
{
    concat4("Found ", cmd, " at ", path)
}

/// The error for a media file that is not there: `File does not exist: {path}`.
pub fn missing_file_message(path: &str) -> (r: String)
    ensures
        r@ == "File does not exist: "@ + path@,
{
    concat2("File does not exist: ", path)
}

/// The arguments given to `ffprobe` to describe a media file as JSON.
pub open spec fn ffprobe_args_spec(file_path: Seq<char>) -> Seq<Seq<char>> {
    seq!["-v"@, "quiet"@, "-print_format"@, "json"@, "-show_format"@, "-show_streams"@, file_path]
}

/// The arguments given to `ffprobe` to describe a media file as JSON.
pub fn ffprobe_args(file_path: &str) -> (r: Vec<String>)
    ensures
        texts(r@) == ffprobe_args_spec(file_path@),
{
    let mut r: Vec<String> = Vec::new();
    r.push(String::from_str("-v"));
    r.push(String::from_str("quiet"));
    r.push(String::from_str("-print_format"));
    r.push(String::from_str("json"));
    r.push(String::from_str("-show_format"));
    r.push(String::from_str("-show_streams"));
    r.push(String::from_str(file_path));
    assert(texts(r@) =~= ffprobe_args_spec(file_path@));
    r
}

/// The error for an `ffprobe` run that failed: `ffprobe failed: {stderr}`.
pub open spec fn ffprobe_failure_spec(stderr: Seq<u8>) -> Seq<char> {
    "ffprobe failed: "@ + lossy_text(stderr)
}

/// The media description from an `ffprobe` run: its error output when it
/// failed, otherwise its output read as JSON.
pub fn metadata_from_output(success: bool, stdout: &[u8], stderr: &[u8]) -> (r: Result<
    serde_json::Value,
    String,
>)
    ensures
        !success ==> (r matches Err(e) && e@ == ffprobe_failure_spec(stderr@)),
        success ==> match r {
            Ok(v) => json_parse(stdout@) == Ok::<serde_json::Value, Seq<char>>(v),
            Err(e) => json_parse(stdout@) == Err::<serde_json::Value, Seq<char>>(e@),
        },
{
    if !success {
        let text = utf8_lossy(stderr);
        return Err(concat2("ffprobe failed: ", text.as_str()));
    }
    json_from_slice(stdout)
}

/// The result of reading `ffmpeg -version`: its first line, or an error for empty output.
pub open spec fn version_line_spec(text: Seq<char>) -> Result<Seq<char>, Seq<char>> {
    match first_line_spec(text) {
        Some(l) => Ok(l),
        None => Err("Failed to read version info"@),
    }
}

/// The version is the whole first line of what `ffmpeg -version` printed:
/// all of it when there is no line feed, otherwise everything before the
/// first line feed, less one carriage return just before it; empty output
/// is an error.
pub proof fn lemma_version_is_whole_first_line(text: Seq<char>)
    ensures
        text.len() == 0 ==> version_line_spec(text) == Err::<Seq<char>, Seq<char>>(
            "Failed to read version info"@,
        ),
        text.len() > 0 && (forall|j: int| 0 <= j < text.len() ==> text[j] != '\n')
            ==> version_line_spec(text) == Ok::<Seq<char>, Seq<char>>(text),
        forall|i: int|
            0 <= i < text.len() && #[trigger] text[i] == '\n' && (forall|j: int|
                0 <= j < i ==> text[j] != '\n') ==> version_line_spec(text) == Ok::<
                Seq<char>,
                Seq<char>,
            >(if i > 0 && text[i - 1] == '\r' {
                text.take(i - 1)
            } else {
                text.take(i)
            }),
{
    lemma_first_line_whole(text);
}

/// The version line in the text that `ffmpeg -version` printed: its first line.
pub fn version_line(text: &str) -> (r: Result<String, String>)
    ensures
        match r {
            Ok(l) => version_line_spec(text@) == Ok::<Seq<char>, Seq<char>>(l@),
            Err(e) => version_line_spec(text@) == Err::<Seq<char>, Seq<char>>(e@),
        },
{
    match first_line(text) {
        Some(l) => Ok(l),
        None => Err(String::from_str("Failed to read version info")),
    }
}

/// The FFmpeg version from an `ffmpeg -version` run: its error output when it
/// failed, otherwise the first line of what it printed.
pub fn version_from_output(success: bool, stdout: &[u8], stderr: &[u8]) -> (r: Result<String, String>)
    ensures
        !success ==> (r matches Err(e) && e@ == "Failed to get FFmpeg version: "@ + lossy_text(stderr@)),
        success ==> match r {
            Ok(l) => version_line_spec(lossy_text(stdout@)) == Ok::<Seq<char>, Seq<char>>(l@),
            Err(e) => version_line_spec(lossy_text(stdout@)) == Err::<Seq<char>, Seq<char>>(e@),
        },
        success ==> (r is Ok <==> stdout@.len() > 0),
{
    if !success {
        let text = utf8_lossy(stderr);
        return Err(concat2("Failed to get FFmpeg version: ", text.as_str()));
    }
    let text = utf8_lossy(stdout);
    version_line(text.as_str())
}

/// Parses a download address, giving the parser's error text when it refuses it.
pub fn download_url(file_url: &str) -> (r: Result<reqwest::Url, String>)
    ensures
        match r {
            Ok(u) => url_parse_result(file_url@) == Ok::<reqwest::Url, Seq<char>>(u),
            Err(e) => url_parse_result(file_url@) == Err::<reqwest::Url, Seq<char>>(e@),
        },
{
    url_parse(file_url)
}

/// The error for a download answered with a failure status.
pub fn download_failed_message(file_url: &str) -> (r: String)
    ensures
        r@ == "Failed to download from URL: "@ + file_url@,
{
    concat2("Failed to download from URL: ", file_url)
}

/// The length a `Content-Length` header announces: the header read as text
/// (visible ASCII only) and then as a `usize`; nothing when either step fails.
pub open spec fn announced_length_spec(header: Option<Seq<u8>>) -> Option<usize> {
    match header {
        Some(b) => if forall|i: int| 0 <= i < b.len() ==> is_visible_ascii(#[trigger] b[i]) {
            parse_usize_spec(b)
        } else {
            None
        },
        None => None,
    }
}

/// The length that a `Content-Length` header value announces.
pub fn announced_length(header: Option<&[u8]>) -> (r: Option<usize>)
    ensures
        r == announced_length_spec(
            match header {
                Some(b) => Some(b@),
                None => None,
            },
        ),
{
    match header {
        Some(b) => if header_is_text(b) {
            parse_usize(b)
        } else {
            None
        },
        None => None,
    }
}

/// A download whose `Content-Length` header is the decimal text of its
/// length announces exactly that length, so its length check passes.
pub proof fn lemma_own_length_passes(received: usize)
    ensures
        announced_length_spec(Some(latin_bytes(decimal_text(received as nat)))) == Some(received),
{
    let b = latin_bytes(decimal_text(received as nat));
    lemma_parse_decimal_roundtrip(received);
    assert forall|i: int| 0 <= i < b.len() implies is_visible_ascii(#[trigger] b[i]) by {
        lemma_decimal_bytes_are_digits(received as nat, i);
    }
}

/// The error for a download shorter or longer than announced.
pub open spec fn incomplete_download_spec(expected: nat, received: nat) -> Seq<char> {
    "Incomplete download. Expected "@ + decimal_text(expected) + " bytes but got "@ + decimal_text(
        received,
    ) + " bytes."@
}

/// Checks the received length against the announced one; no announcement
/// means nothing to check.
pub fn check_download_length(expected: Option<usize>, received: usize) -> (r: Result<(), String>)
    ensures
        r is Err <==> (expected matches Some(e) && e != received),
        r matches Err(m) ==> m@ == incomplete_download_spec(expected.unwrap() as nat, received as nat),
{
    match expected {
        Some(e) => if e != received {
            let mut m = String::from_str("Incomplete download. Expected ");
            let a = decimal_usize(e);
            m.append(a.as_str());
            m.append(" bytes but got ");
            let b = decimal_usize(received);
            m.append(b.as_str());
            m.append(" bytes.");
            Err(m)
        } else {
            Ok(())
        },
        None => Ok(()),
    }
}

/// Checks a finished download against its `Content-Length` header value.
pub fn check_content_length(header: Option<&[u8]>, received: usize) -> (r: Result<(), String>)
    ensures
        ({
            let expected = announced_length_spec(
                match header {
                    Some(b) => Some(b@),
                    None => None,
                },
            );
            &&& r is Err <==> (expected matches Some(e) && e != received)
            &&& r matches Err(m) ==> m@ == incomplete_download_spec(
                expected.unwrap() as nat,
                received as nat,
            )
        }),
{
    let expected = announced_length(header);
    check_download_length(expected, received)
}

/// What the download reports once the file is written.
pub fn saved_file_message(exists: bool) -> (r: String)
    ensures
        exists ==> r@ == "File downloaded successfully"@,
        !exists ==> r@ == "File does not exist after download"@,
{
    if exists {
        String::from_str("File downloaded successfully")
    } else {
        String::from_str("File does not exist after download")
    }
}

/// Whether a ZIP entry stands for a directory: its name ends with `/`.
pub fn is_directory_entry(name: &str) -> (r: bool)
    ensures
        r == (name@.len() > 0 && name@.last() == '/'),
{
    ends_with_char(name, '/')
}

/// What is logged for each ZIP entry: `Processing file: {name}`.
pub fn processing_message(name: &str) -> (r: String)
    ensures
        r@ == "Processing file: "@ + name@,
{
    concat2("Processing file: ", name)
}

/// One step of unpacking a ZIP entry next to the archive.
pub enum EntryAction {
    /// Log this line.
    Log(String),
    /// Log that the missing parent directory of the output is being created.
    LogParentDirectory,
    /// Create the entry's output path as a directory, with its parents.
    CreateDirectory,
    /// Create the parent directory of the entry's output path.
    CreateParentDirectory,
    /// Read the entry's contents.
    ReadEntry,
    /// Write the contents read to the output path.
    WriteFile,
    /// Give the output file these Unix permission bits.
    SetPermissions(u32),
}

/// A step of unpacking as text.
pub enum EntryActionModel {
    Log(Seq<char>),
    LogParentDirectory,
    CreateDirectory,
    CreateParentDirectory,
    ReadEntry,
    WriteFile,
    SetPermissions(u32),
}

impl View for EntryAction {
    type V = EntryActionModel;

    open spec fn view(&self) -> EntryActionModel {
        match self {
            EntryAction::Log(s) => EntryActionModel::Log(s@),
            EntryAction::LogParentDirectory => EntryActionModel::LogParentDirectory,
            EntryAction::CreateDirectory => EntryActionModel::CreateDirectory,
            EntryAction::CreateParentDirectory => EntryActionModel::CreateParentDirectory,
            EntryAction::ReadEntry => EntryActionModel::ReadEntry,
            EntryAction::WriteFile => EntryActionModel::WriteFile,
            EntryAction::SetPermissions(m) => EntryActionModel::SetPermissions(*m),
        }
    }
}

/// The steps for one ZIP entry named `name`: log it; a name ending in `/`
/// is a directory to create; a file gets its missing parent directory
/// created first, is read, logged and written, and on Unix takes the
/// permission bits the archive records for it.
pub open spec fn entry_actions_spec(
    name: Seq<char>,
    parent_missing: bool,
    unix: bool,
    mode: Option<u32>,
) -> Seq<EntryActionModel> {
    let head = seq![EntryActionModel::Log("Processing file: "@ + name)];
    if name.len() > 0 && name.last() == '/' {
        head + seq![EntryActionModel::Log("Creating directory..."@), EntryActionModel::CreateDirectory]
    } else {
        let parent = if parent_missing {
            seq![EntryActionModel::LogParentDirectory, EntryActionModel::CreateParentDirectory]
        } else {
            Seq::empty()
        };
        let perms = match mode {
            Some(m) => if unix {
                seq![EntryActionModel::SetPermissions(m)]
            } else {
                Seq::empty()
            },
            None => Seq::empty(),
        };
        head + parent + seq![
            EntryActionModel::ReadEntry,
            EntryActionModel::Log("Writing to output file..."@),
            EntryActionModel::WriteFile,
        ] + perms
    }
}

/// What unpacking an entry does, by kind: every entry is first logged; a
/// directory entry ends by creating the directory and writes no file and
/// sets no permissions; a file entry creates its parent directory exactly
/// when it is missing, reads before it writes, and on Unix ends by setting
/// the recorded permission bits, whatever happened to the parent; without
/// Unix or without recorded bits no permissions are set.
pub proof fn lemma_entry_steps(name: Seq<char>, parent_missing: bool, unix: bool, mode: Option<u32>)
    ensures
        ({
            let a = entry_actions_spec(name, parent_missing, unix, mode);
            let dir = name.len() > 0 && name.last() == '/';
            &&& a.len() > 0 && a[0] == EntryActionModel::Log("Processing file: "@ + name)
            &&& dir ==> a.last() == EntryActionModel::CreateDirectory
            &&& dir ==> forall|i: int|
                0 <= i < a.len() ==> #[trigger] a[i] != EntryActionModel::WriteFile
                    && !(a[i] is SetPermissions)
            &&& !dir ==> (parent_missing <==> exists|i: int|
                0 <= i < a.len() && #[trigger] a[i] == EntryActionModel::CreateParentDirectory)
            &&& !dir ==> exists|i: int, j: int|
                0 <= i < j < a.len() && #[trigger] a[i] == EntryActionModel::ReadEntry && #[trigger] a[j]
                    == EntryActionModel::WriteFile
            &&& (mode is Some && unix && !dir) ==> a.last() == EntryActionModel::SetPermissions(
                mode.unwrap(),
            )
            &&& (!unix || mode is None) ==> forall|i: int|
                0 <= i < a.len() ==> !(#[trigger] a[i] is SetPermissions)
            &&& (!dir && (!unix || mode is None)) ==> a.last() == EntryActionModel::WriteFile
        }),
{
    let a = entry_actions_spec(name, parent_missing, unix, mode);
    let dir = name.len() > 0 && name.last() == '/';
    if !dir {
        let p: int = if parent_missing { 2 } else { 0 };
        assert(a[p + 1] == EntryActionModel::ReadEntry);
        assert(a[p + 3] == EntryActionModel::WriteFile);
        if parent_missing {
            assert(a[2] == EntryActionModel::CreateParentDirectory);
        }
    }
}

/// The views of a list of unpacking steps.
pub open spec fn actions_view(v: Seq<EntryAction>) -> Seq<EntryActionModel> {
    v.map_values(|a: EntryAction| a@)
}

/// The steps that unpack the ZIP entry `name`. `parent_missing`: the output
/// path has a parent directory that does not exist yet; `unix`: the
/// platform has Unix permissions; `mode`: the permission bits the archive
/// records for the entry.
pub fn entry_actions(name: &str, parent_missing: bool, unix: bool, mode: Option<u32>) -> (r: Vec<
    EntryAction,
>)
    ensures
        actions_view(r@) == entry_actions_spec(name@, parent_missing, unix, mode),
{
    let mut r: Vec<EntryAction> = Vec::new();
    r.push(EntryAction::Log(processing_message(name)));
    if is_directory_entry(name) {
        r.push(EntryAction::Log(String::from_str("Creating directory...")));
        r.push(EntryAction::CreateDirectory);
    } else {
        if parent_missing {
            r.push(EntryAction::LogParentDirectory);
            r.push(EntryAction::CreateParentDirectory);
        }
        r.push(EntryAction::ReadEntry);
        r.push(EntryAction::Log(String::from_str("Writing to output file...")));
        r.push(EntryAction::WriteFile);
        match mode {
            Some(m) => if unix {
                r.push(EntryAction::SetPermissions(m));
            },
            None => {},
        }
    }
    assert(actions_view(r@) =~= entry_actions_spec(name@, parent_missing, unix, mode));
    r
}

/// What is logged once the archive is removed: `{file_name} zip file removed successfully!`.
pub fn archive_removed_message(file_name: &str) -> (r: String)
    ensures
        r@ == file_name@ + " zip file removed successfully!"@,
{
    concat2(file_name, " zip file removed successfully!")
}

/// One archive to download: where from, and the file name to save it as.
pub struct DownloadItem {
    pub url: String,
    pub file_name: String,
}

/// The archives holding FFmpeg's tools for each platform (Windows has no
/// separate `ffprobe` archive; other platforms have none).
pub open spec fn ffmpeg_downloads_spec(platform: Platform) -> Seq<(Seq<char>, Seq<char>)> {
    match platform {
        Platform::MacOs => seq![
            ("https://vvctools.com/ffmpeg/mac/ffmpeg.zip"@, "ffmpeg.zip"@),
            ("https://vvctools.com/ffmpeg/mac/ffprobe.zip"@, "ffprobe.zip"@),
        ],
        Platform::Windows => seq![("https://vvctools.com/ffmpeg/win/ffmpeg.zip"@, "ffmpeg.zip"@)],
        Platform::Linux => seq![
            ("https://vvctools.com/ffmpeg/lin/ffmpeg.zip"@, "ffmpeg.zip"@),
            ("https://vvctools.com/ffmpeg/lin/ffprobe.zip"@, "ffprobe.zip"@),
        ],
        Platform::Other => Seq::empty(),
    }
}

/// Each platform's archives lie in that platform's own directory of the
/// download site (`mac/`, `win/`, `lin/`), under their own file names; the
/// FFmpeg archive is always among them, the `ffprobe` one everywhere but on
/// Windows, and other platforms get none.
pub proof fn lemma_downloads_in_platform_directory(platform: Platform)
    ensures
        ({
            let d = ffmpeg_downloads_spec(platform);
            &&& platform == Platform::MacOs ==> forall|i: int|
                0 <= i < d.len() ==> #[trigger] d[i].0 == "https://vvctools.com/ffmpeg/mac/"@ + d[i].1
            &&& platform == Platform::Windows ==> forall|i: int|
                0 <= i < d.len() ==> #[trigger] d[i].0 == "https://vvctools.com/ffmpeg/win/"@ + d[i].1
            &&& platform == Platform::Linux ==> forall|i: int|
                0 <= i < d.len() ==> #[trigger] d[i].0 == "https://vvctools.com/ffmpeg/lin/"@ + d[i].1
            &&& platform == Platform::Other ==> d.len() == 0
            &&& platform != Platform::Other ==> d.len() > 0 && d[0].1 == "ffmpeg.zip"@
            &&& (platform == Platform::MacOs || platform == Platform::Linux) ==> d.len() == 2
                && d[1].1 == "ffprobe.zip"@
            &&& platform == Platform::Windows ==> d.len() == 1
        }),
{
    reveal_strlit("https://vvctools.com/ffmpeg/mac/");
    reveal_strlit("https://vvctools.com/ffmpeg/win/");
    reveal_strlit("https://vvctools.com/ffmpeg/lin/");
    reveal_strlit("ffmpeg.zip");
    reveal_strlit("ffprobe.zip");
    reveal_strlit("https://vvctools.com/ffmpeg/mac/ffmpeg.zip");
    reveal_strlit("https://vvctools.com/ffmpeg/mac/ffprobe.zip");
    reveal_strlit("https://vvctools.com/ffmpeg/win/ffmpeg.zip");
    reveal_strlit("https://vvctools.com/ffmpeg/lin/ffmpeg.zip");
    reveal_strlit("https://vvctools.com/ffmpeg/lin/ffprobe.zip");
    let d = ffmpeg_downloads_spec(platform);
    match platform {
        Platform::MacOs => {
            assert(d[0].0 =~= "https://vvctools.com/ffmpeg/mac/"@ + d[0].1);
            assert(d[1].0 =~= "https://vvctools.com/ffmpeg/mac/"@ + d[1].1);
        },
        Platform::Windows => {
            assert(d[0].0 =~= "https://vvctools.com/ffmpeg/win/"@ + d[0].1);
        },
        Platform::Linux => {
            assert(d[0].0 =~= "https://vvctools.com/ffmpeg/lin/"@ + d[0].1);
            assert(d[1].0 =~= "https://vvctools.com/ffmpeg/lin/"@ + d[1].1);
        },
        Platform::Other => {},
    }
}

/// The view of a list of downloads.
pub open spec fn downloads_view(v: Seq<DownloadItem>) -> Seq<(Seq<char>, Seq<char>)> {
    v.map_values(|d: DownloadItem| (d.url@, d.file_name@))
}

fn download_item(url: &str, file_name: &str) -> (r: DownloadItem)
    ensures
        r.url@ == url@,
        r.file_name@ == file_name@,
{
    DownloadItem { url: String::from_str(url), file_name: String::from_str(file_name) }
}

/// The archives to download to install FFmpeg's tools on `platform`.
pub fn ffmpeg_downloads(platform: Platform) -> (r: Vec<DownloadItem>)
    ensures
        downloads_view(r@) == ffmpeg_downloads_spec(platform),
{
    let mut r: Vec<DownloadItem> = Vec::new();
    match platform {
        Platform::MacOs => {
            r.push(download_item("https://vvctools.com/ffmpeg/mac/ffmpeg.zip", "ffmpeg.zip"));
            r.push(download_item("https://vvctools.com/ffmpeg/mac/ffprobe.zip", "ffprobe.zip"));
        },
        Platform::Windows => {
            r.push(download_item("https://vvctools.com/ffmpeg/win/ffmpeg.zip", "ffmpeg.zip"));
        },
        Platform::Linux => {
            r.push(download_item("https://vvctools.com/ffmpeg/lin/ffmpeg.zip", "ffmpeg.zip"));
            r.push(download_item("https://vvctools.com/ffmpeg/lin/ffprobe.zip", "ffprobe.zip"));
        },
        Platform::Other => {},
    }
    assert(downloads_view(r@) =~= ffmpeg_downloads_spec(platform));
    r
}

/// The line logged for the download of `file_name` with the given outcome.
pub open spec fn download_report_line(file_name: Seq<char>, outcome: Result<(), Seq<char>>) -> Seq<char> {
    match outcome {
        Ok(_) => "Successfully downloaded and extracted "@ + file_name,
        Err(e) => "Error while downloading and extracting "@ + file_name + ": "@ + e,
    }
}

/// The view of a list of outcomes.
pub open spec fn outcomes_view(v: Seq<Result<(), String>>) -> Seq<Result<(), Seq<char>>> {
    v.map_values(
        |o: Result<(), String>|
            match o {
                Ok(u) => Ok(u),
                Err(e) => Err(e@),
            },
    )
}

/// The lines logged after the downloads: the `i`-th outcome is reported
/// under the name of the `i`-th archive.
pub fn download_report(items: &Vec<DownloadItem>, outcomes: &Vec<Result<(), String>>) -> (r: Vec<String>)
    requires
        outcomes.len() <= items.len(),
    ensures
        r.len() == outcomes.len(),
        forall|i: int|
            0 <= i < outcomes.len() ==> #[trigger] r@[i]@ == download_report_line(
                items@[i].file_name@,
                outcomes_view(outcomes@)[i],
            ),
{
    let mut r: Vec<String> = Vec::new();
    let n = outcomes.len();
    let mut i: usize = 0;
    while i < n
        invariant
            n == outcomes.len(),
            n <= items.len(),
            i <= n,
            r.len() == i,
            forall|j: int|
                0 <= j < i ==> #[trigger] r@[j]@ == download_report_line(
                    items@[j].file_name@,
                    outcomes_view(outcomes@)[j],
                ),
        decreases n - i,
    {
        let name = items[i].file_name.as_str();
        let line = match &outcomes[i] {
            Ok(_) => concat2("Successfully downloaded and extracted ", name),
            Err(e) => concat4("Error while downloading and extracting ", name, ": ", e.as_str()),
        };
        r.push(line);
        i = i + 1;
    }
    r
}

/// The FFmpeg tools the resolver window shows.
#[derive(Clone, Copy, Debug, PartialEq, Eq, Structural)]
pub enum Tool {
    Ffmpeg,
    Ffprobe,
}

/// What the resolver window shows for a tool: where it was found, or that it was not.
pub open spec fn tool_display_spec(tool: Tool, found: Option<Seq<char>>) -> Seq<char> {
    match found {
        Some(p) => p,
        None => match tool {
            Tool::Ffmpeg => "FFmpeg not found"@,
            Tool::Ffprobe => "FFprobe not found"@,
        },
    }
}

/// The command name of a tool.
pub fn tool_command(tool: Tool) -> (r: &'static str)
    ensures
        tool == Tool::Ffmpeg ==> r@ == "ffmpeg"@,
        tool == Tool::Ffprobe ==> r@ == "ffprobe"@,
{
    match tool {
        Tool::Ffmpeg => "ffmpeg",
        Tool::Ffprobe => "ffprobe",
    }
}

/// The error when the resolver window cannot be opened.
pub fn resolver_window_error() -> (r: String)
    ensures
        r@ == "Failed to open FFmpeg window"@,
{
    String::from_str("Failed to open FFmpeg window")
}

/// The window shows the path wherever one was found, for either tool, and
/// the tool's own not-found text only when none was.
pub proof fn lemma_tool_display_shows_found_path(tool: Tool, found: Option<Seq<char>>)
    ensures
        found matches Some(p) ==> tool_display_spec(tool, found) == p,
        found is None && tool == Tool::Ffmpeg ==> tool_display_spec(tool, found) == "FFmpeg not found"@,
        found is None && tool == Tool::Ffprobe ==> tool_display_spec(tool, found) == "FFprobe not found"@,
{
}

/// What the resolver window shows for a tool, given the displayed path where it was found.
pub fn tool_display(tool: Tool, found: Option<&str>) -> (r: String)
    ensures
        found matches Some(p) ==> r@ == p@,
        r@ == tool_display_spec(
            tool,
            match found {
                Some(p) => Some(p@),
                None => None,
            },
        ),
{
    match found {
        Some(p) => String::from_str(p),
        None => match tool {
            Tool::Ffmpeg => String::from_str("FFmpeg not found"),
            Tool::Ffprobe => String::from_str("FFprobe not found"),
        },
    }
}

} // verus!
