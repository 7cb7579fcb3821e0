//! Advertising the GATT service. BlueZ's D-Bus advertisement registration
//! fails on some systems while the controller still accepts advertisements
//! through `btmgmt add-adv`, so the setup falls back to `btmgmt` when the
//! D-Bus path fails. `btmgmt` may hang without a terminal, so it runs under
//! `script` (which provides a pseudo-terminal) and `timeout`.
//!
//! The setup is a state machine: the caller performs each action (a D-Bus
//! call or a command) and reports what came of it.

use vstd::prelude::*;

use crate::text::{chars_of, contains_text, find_text, text_trims_to_char, trims_to_char};
use crate::uuids::{uuid_string, uuid_text, SERVICE_UUID};

verus! {

/// The program under which every `btmgmt` command runs.
pub const TIMEOUT_PROGRAM: &'static str = "timeout";

/// The seconds that `timeout` grants a `btmgmt` command.
pub const BTMGMT_TIMEOUT_SECONDS: &'static str = "5";

/// The advertisement instance that the fallback registers.
pub const BTMGMT_INSTANCE_ID: u8 = 1;

/// The views of a list of strings.
pub open spec fn strings_view(v: Seq<String>) -> Seq<Seq<char>> {
    v.map_values(|s: String| s@)
}

/// The decimal digit `d` (0 to 9).
pub open spec fn digit_char(d: int) -> char {
    (48 + d) as char
}

/// The decimal text of `n`, without leading zeros.
pub open spec fn decimal_text(n: nat) -> Seq<char>
    decreases n,
{
    if n < 10 {
        seq![digit_char(n as int)]
    } else {
        decimal_text(n / 10).push(digit_char((n % 10) as int))
    }
}

fn digit_string(d: u8) -> (s: String)
    requires
        d < 10,
    ensures
        s@ == seq![digit_char(d as int)],
{
    let lit = match d {
        0 => { proof { reveal_strlit("0"); } "0" },
        1 => { proof { reveal_strlit("1"); } "1" },
        2 => { proof { reveal_strlit("2"); } "2" },
        3 => { proof { reveal_strlit("3"); } "3" },
        4 => { proof { reveal_strlit("4"); } "4" },
        5 => { proof { reveal_strlit("5"); } "5" },
        6 => { proof { reveal_strlit("6"); } "6" },
        7 => { proof { reveal_strlit("7"); } "7" },
        8 => { proof { reveal_strlit("8"); } "8" },
        _ => { proof { reveal_strlit("9"); } "9" },
    };
    let s = String::from_str(lit);
    assert(s@ =~= seq![digit_char(d as int)]);
    s
}

/// The decimal text of a byte.
pub fn u8_decimal(n: u8) -> (s: String)
    ensures
        s@ == decimal_text(n as nat),
{
    proof {
        reveal_with_fuel(decimal_text, 3);
    }
    if n < 10 {
        digit_string(n)
    } else if n < 100 {
        let tens = digit_string(n / 10);
        let ones = digit_string(n % 10);
        let s = tens.concat(ones.as_str());
        assert(s@ =~= decimal_text(n as nat));
        s
    } else {
        let hundreds = digit_string(n / 100);
        let tens = digit_string((n / 10) % 10);
        let ones = digit_string(n % 10);
        let s = hundreds.concat(tens.as_str()).concat(ones.as_str());
        assert((n as nat / 10) / 10 == n as nat / 100);
        assert(s@ =~= decimal_text(n as nat));
        s
    }
}

fn owned(s: &str) -> (r: String)
    ensures
        r@ == s@,
{
    String::from_str(s)
}

/// The arguments of `btmgmt` that remove advertisement `instance` of `adapter`.
pub open spec fn rm_adv_args(adapter: Seq<char>, instance: u8) -> Seq<Seq<char>> {
    seq!["-i"@, adapter, "rm-adv"@, decimal_text(instance as nat)]
}

/// The arguments of `btmgmt` that add advertisement `instance` of `adapter`,
/// connectable (`-c`), general discoverable (`-g`), listing the service `uuid`.
pub open spec fn add_adv_args(adapter: Seq<char>, uuid: Seq<char>, instance: u8) -> Seq<Seq<char>> {
    seq!["-i"@, adapter, "add-adv"@, "-c"@, "-g"@, "-u"@, uuid, decimal_text(instance as nat)]
}

/// The arguments of `btmgmt` that list the advertisements of `adapter`.
pub open spec fn advinfo_args(adapter: Seq<char>) -> Seq<Seq<char>> {
    seq!["-i"@, adapter, "advinfo"@]
}

fn rm_adv_command(adapter: &str, instance: u8) -> (args: Vec<String>)
    ensures
        strings_view(args@) == rm_adv_args(adapter@, instance),
{
    let mut args: Vec<String> = Vec::new();
    args.push(owned("-i"));
    args.push(owned(adapter));
    args.push(owned("rm-adv"));
    args.push(u8_decimal(instance));
    assert(strings_view(args@) =~= rm_adv_args(adapter@, instance));
    args
}

fn add_adv_command(adapter: &str, uuid: &str, instance: u8) -> (args: Vec<String>)
    ensures
        strings_view(args@) == add_adv_args(adapter@, uuid@, instance),
{
    let mut args: Vec<String> = Vec::new();
    args.push(owned("-i"));
    args.push(owned(adapter));
    args.push(owned("add-adv"));
    args.push(owned("-c"));
    args.push(owned("-g"));
    args.push(owned("-u"));
    args.push(owned(uuid));
    args.push(u8_decimal(instance));
    assert(strings_view(args@) =~= add_adv_args(adapter@, uuid@, instance));
    args
}

fn advinfo_command(adapter: &str) -> (args: Vec<String>)
    ensures
        strings_view(args@) == advinfo_args(adapter@),
{
    let mut args: Vec<String> = Vec::new();
    args.push(owned("-i"));
    args.push(owned(adapter));
    args.push(owned("advinfo"));
    assert(strings_view(args@) =~= advinfo_args(adapter@));
    args
}

/// Whether `c` makes `shell_words::quote` quote a word: a newline, a single
/// quote, or one of `|&;<>()$`\"`, space, tab, `*?[#~=%`.
pub open spec fn is_shell_special(c: char) -> bool {
    c == '\n' || c == '\'' || c == '|' || c == '&' || c == ';' || c == '<' || c == '>' || c == '(' || c == ')'
        || c == '$' || c == '`' || c == '\\' || c == '"' || c == ' ' || c == '\t' || c == '*' || c == '?' || c
        == '[' || c == '#' || c == '~' || c == '=' || c == '%'
}

/// `w` with every single quote written as `'\''`.
pub open spec fn escape_single_quotes(w: Seq<char>) -> Seq<char>
    decreases w.len(),
{
    if w.len() == 0 {
        Seq::empty()
    } else {
        escape_single_quotes(w.drop_last()) + (if w.last() == '\'' {
            seq!['\'', '\\', '\'', '\'']
        } else {
            seq![w.last()]
        })
    }
}

/// The word as `shell_words::quote` writes it: unchanged when it is not empty
/// and holds no special character; otherwise in single quotes, with each
/// single quote inside written as `'\''` (an empty word becomes `''`).
pub open spec fn shell_quote(w: Seq<char>) -> Seq<char> {
    if w.len() > 0 && forall|i: int| 0 <= i < w.len() ==> !is_shell_special(#[trigger] w[i]) {
        w
    } else {
        seq!['\''] + escape_single_quotes(w) + seq!['\'']
    }
}

/// The command line that `shell_words::join` makes of `words`: each word
/// quoted by `shell_quote`, separated by single spaces.
pub open spec fn shell_words_join(words: Seq<Seq<char>>) -> Seq<char>
    decreases words.len(),
{
    if words.len() == 0 {
        Seq::empty()
    } else if words.len() == 1 {
        shell_quote(words[0])
    } else {
        shell_words_join(words.drop_last()) + seq![' '] + shell_quote(words.last())
    }
}

/// Calls `shell_words::join` on the words. As shell-words 1.1.1 implements
/// it (`join`, `quote`, `escape_style`), each word is quoted as
/// `shell_quote` says and the words are separated by single spaces. (The
/// crate's documentation leaves the quoting style open; the contract states
/// the version that the library is built with.)
#[verifier::external_body]
fn shell_join(words: &Vec<String>) -> (line: String)
    ensures
        line@ == shell_words_join(strings_view(words@)),
{
    shell_words::join(words.iter())
}

/// The arguments of `timeout` that run `btmgmt` with `btmgmt_args` through
/// `script -q -e -c <command line> /dev/null`.
pub open spec fn btmgmt_invocation_args(btmgmt_args: Seq<Seq<char>>) -> Seq<Seq<char>> {
    seq![
        BTMGMT_TIMEOUT_SECONDS@,
        "script"@,
        "-q"@,
        "-e"@,
        "-c"@,
        shell_words_join(seq!["btmgmt"@] + btmgmt_args),
        "/dev/null"@,
    ]
}

/// The arguments of `timeout` (see `TIMEOUT_PROGRAM`) that run `btmgmt` with
/// `btmgmt_args` under a pseudo-terminal and a time limit.
pub fn btmgmt_invocation(btmgmt_args: &Vec<String>) -> (args: Vec<String>)
    ensures
        strings_view(args@) == btmgmt_invocation_args(strings_view(btmgmt_args@)),
{
    let mut words: Vec<String> = Vec::new();
    words.push(owned("btmgmt"));
    let n = btmgmt_args.len();
    let mut i: usize = 0;
    while i < n
        invariant
            n == btmgmt_args@.len(),
            i <= n,
            strings_view(words@) == seq!["btmgmt"@] + strings_view(btmgmt_args@).take(i as int),
        decreases n - i,
    {
        let ghost before = words@;
        words.push(btmgmt_args[i].clone());
        assert(strings_view(words@) =~= strings_view(before).push(btmgmt_args@[i as int]@));
        assert(strings_view(btmgmt_args@).take(i + 1) =~= strings_view(btmgmt_args@).take(i as int).push(
            btmgmt_args@[i as int]@,
        ));
        i = i + 1;
    }
    assert(strings_view(btmgmt_args@).take(n as int) =~= strings_view(btmgmt_args@));
    let line = shell_join(&words);
    let mut args: Vec<String> = Vec::new();
    args.push(owned(BTMGMT_TIMEOUT_SECONDS));
    args.push(owned("script"));
    args.push(owned("-q"));
    args.push(owned("-e"));
    args.push(owned("-c"));
    args.push(line);
    args.push(owned("/dev/null"));
    assert(strings_view(args@) =~= btmgmt_invocation_args(strings_view(btmgmt_args@)));
    args
}

/// The text by which `btmgmt advinfo` lists advertisement instances.
pub const ADV_LIST_HEADER: &'static str = "Instances list with ";

/// The text by which `btmgmt advinfo` reports an empty list.
pub const ADV_LIST_EMPTY: &'static str = "Instances list with 0 items";

/// Whether the output of `btmgmt advinfo` (standard output followed by
/// standard error) lists at least one advertisement instance.
pub open spec fn advinfo_lists_instances(stdout: Seq<char>, stderr: Seq<char>) -> bool {
    contains_text(stdout + stderr, ADV_LIST_HEADER@) && !contains_text(stdout + stderr, ADV_LIST_EMPTY@)
}

/// Whether `btmgmt advinfo` shows a registered advertisement: `None` when
/// the command did not succeed, else whether its output lists an instance.
/// The output is taken as decoded text.
pub fn btmgmt_advertisement_exists(succeeded: bool, stdout: &str, stderr: &str) -> (exists: Option<bool>)
    ensures
        exists == (if succeeded { Some(advinfo_lists_instances(stdout@, stderr@)) } else { None }),
{
    if !succeeded {
        return None;
    }
    let combined = String::from_str(stdout).concat(stderr);
    let hay = chars_of(combined.as_str());
    let header = chars_of(ADV_LIST_HEADER);
    let empty = chars_of(ADV_LIST_EMPTY);
    let listed = find_text(&hay, &header);
    let none_listed = find_text(&hay, &empty);
    Some(listed && !none_listed)
}

/// Whether `id -u` reports the superuser: `None` when the command did not
/// succeed, else whether its output, trimmed of whitespace, is `0`.
pub fn is_running_as_root(succeeded: bool, stdout: &str) -> (root: Option<bool>)
    ensures
        root == (if succeeded { Some(trims_to_char(stdout@, '0')) } else { None }),
{
    if !succeeded {
        return None;
    }
    let text = chars_of(stdout);
    Some(text_trims_to_char(&text, '0'))
}

/// An advertisement registered through `btmgmt`.
pub struct BtmgmtAdvertisementHandle {
    adapter_name: String,
    instance_id: u8,
}

impl BtmgmtAdvertisementHandle {
    /// The adapter that carries the advertisement.
    pub closed spec fn adapter(&self) -> Seq<char> {
        self.adapter_name@
    }

    /// The advertisement instance.
    pub closed spec fn instance(&self) -> u8 {
        self.instance_id
    }

    /// Ends the advertisement: answers the `btmgmt` arguments that remove it,
    /// which the caller runs (see `btmgmt_invocation`) and whose outcome it ignores.
    pub fn unregister(self) -> (args: Vec<String>)
        ensures
            strings_view(args@) == rm_adv_args(self.adapter(), self.instance()),
    {
        rm_adv_command(self.adapter_name.as_str(), self.instance_id)
    }
}

/// Why the `btmgmt` fallback failed.
pub enum BtmgmtError {
    /// The daemon runs neither as root nor with `CAP_NET_ADMIN`.
    NotRoot,
    /// Checking the user id failed, for the reason given.
    RootCheckFailed(String),
    /// `btmgmt add-adv` failed, for the reason given, and `advinfo` lists no instance.
    AddFailed(String),
    /// `btmgmt advinfo` failed, for the reason given.
    AdvinfoFailed(String),
}

/// The abstract value of a `BtmgmtError`.
pub ghost enum BtmgmtErrorView {
    NotRoot,
    RootCheckFailed(Seq<char>),
    AddFailed(Seq<char>),
    AdvinfoFailed(Seq<char>),
}

impl View for BtmgmtError {
    type V = BtmgmtErrorView;

    open spec fn view(&self) -> BtmgmtErrorView {
        match self {
            BtmgmtError::NotRoot => BtmgmtErrorView::NotRoot,
            BtmgmtError::RootCheckFailed(m) => BtmgmtErrorView::RootCheckFailed(m@),
            BtmgmtError::AddFailed(m) => BtmgmtErrorView::AddFailed(m@),
            BtmgmtError::AdvinfoFailed(m) => BtmgmtErrorView::AdvinfoFailed(m@),
        }
    }
}

/// What the caller reports after performing an action.
pub enum SetupEvent {
    /// The D-Bus advertisement was registered (`true`) or refused (`false`).
    BluerAttempted(bool),
    /// `id -u` reported root (`Ok(true)`), another user (`Ok(false)`), or failed.
    RootChecked(Result<bool, String>),
    /// A `btmgmt` command finished successfully or failed.
    CommandFinished(Result<(), String>),
    /// `btmgmt advinfo` showed an instance (`Ok(true)`), none, or failed.
    AdvinfoRead(Result<bool, String>),
}

/// What the caller must do next.
pub enum SetupAction {
    /// Register the advertisement through BlueZ over D-Bus.
    AdvertiseWithBluer,
    /// Check whether the daemon runs as root (`id -u`).
    CheckRoot,
    /// Run `btmgmt` with these arguments and report how it finished.
    RunBtmgmt(Vec<String>),
    /// Run `btmgmt` with these `advinfo` arguments and report whether an
    /// instance is listed.
    QueryAdvinfo(Vec<String>),
    /// Done: keep the D-Bus advertisement.
    UseBluer,
    /// Done: the advertisement was registered through `btmgmt`.
    UseBtmgmt(BtmgmtAdvertisementHandle),
    /// Done: advertising failed.
    Fail(BtmgmtError),
}

/// The abstract value of a `SetupAction`.
pub ghost enum SetupActionView {
    AdvertiseWithBluer,
    CheckRoot,
    RunBtmgmt(Seq<Seq<char>>),
    QueryAdvinfo(Seq<Seq<char>>),
    UseBluer,
    UseBtmgmt(Seq<char>, u8),
    Fail(BtmgmtErrorView),
}

impl View for SetupAction {
    type V = SetupActionView;

    open spec fn view(&self) -> SetupActionView {
        match self {
            SetupAction::AdvertiseWithBluer => SetupActionView::AdvertiseWithBluer,
            SetupAction::CheckRoot => SetupActionView::CheckRoot,
            SetupAction::RunBtmgmt(a) => SetupActionView::RunBtmgmt(strings_view(a@)),
            SetupAction::QueryAdvinfo(a) => SetupActionView::QueryAdvinfo(strings_view(a@)),
            SetupAction::UseBluer => SetupActionView::UseBluer,
            SetupAction::UseBtmgmt(h) => SetupActionView::UseBtmgmt(h.adapter(), h.instance()),
            SetupAction::Fail(e) => SetupActionView::Fail(e@),
        }
    }
}

/// Where the setup stands.
pub ghost enum SetupStage {
    AwaitBluer,
    AwaitRoot,
    AwaitRemoval,
    AwaitAdd,
    AwaitAdvinfo(Seq<char>),
    Done,
}

enum Stage {
    AwaitBluer,
    AwaitRoot,
    AwaitRemoval,
    AwaitAdd,
    AwaitAdvinfo(String),
    Done,
}

/// The advertisement setup in progress for one adapter.
pub struct AdvertisementSetup {
    adapter_name: String,
    stage: Stage,
}

/// Whether `event` answers the action that the setup asked for at `stage`.
pub open spec fn answers(stage: SetupStage, event: SetupEvent) -> bool {
    match stage {
        SetupStage::AwaitBluer => event is BluerAttempted,
        SetupStage::AwaitRoot => event is RootChecked,
        SetupStage::AwaitRemoval => event is CommandFinished,
        SetupStage::AwaitAdd => event is CommandFinished,
        SetupStage::AwaitAdvinfo(_) => event is AdvinfoRead,
        SetupStage::Done => false,
    }
}

/// The stage and action that follow `event` at `stage`, for `adapter`.
pub open spec fn setup_step(stage: SetupStage, adapter: Seq<char>, event: SetupEvent) -> (SetupStage, SetupActionView) {
    match (stage, event) {
        (SetupStage::AwaitBluer, SetupEvent::BluerAttempted(true)) => (SetupStage::Done, SetupActionView::UseBluer),
        (SetupStage::AwaitBluer, SetupEvent::BluerAttempted(false)) => (SetupStage::AwaitRoot, SetupActionView::CheckRoot),
        (SetupStage::AwaitRoot, SetupEvent::RootChecked(Ok(true))) => (
            SetupStage::AwaitRemoval,
            SetupActionView::RunBtmgmt(rm_adv_args(adapter, BTMGMT_INSTANCE_ID)),
        ),
        (SetupStage::AwaitRoot, SetupEvent::RootChecked(Ok(false))) => (
            SetupStage::Done,
            SetupActionView::Fail(BtmgmtErrorView::NotRoot),
        ),
        (SetupStage::AwaitRoot, SetupEvent::RootChecked(Err(m))) => (
            SetupStage::Done,
            SetupActionView::Fail(BtmgmtErrorView::RootCheckFailed(m@)),
        ),
        (SetupStage::AwaitRemoval, SetupEvent::CommandFinished(_)) => (
            SetupStage::AwaitAdd,
            SetupActionView::RunBtmgmt(add_adv_args(adapter, uuid_text(SERVICE_UUID), BTMGMT_INSTANCE_ID)),
        ),
        (SetupStage::AwaitAdd, SetupEvent::CommandFinished(Ok(_))) => (
            SetupStage::Done,
            SetupActionView::UseBtmgmt(adapter, BTMGMT_INSTANCE_ID),
        ),
        (SetupStage::AwaitAdd, SetupEvent::CommandFinished(Err(m))) => (
            SetupStage::AwaitAdvinfo(m@),
            SetupActionView::QueryAdvinfo(advinfo_args(adapter)),
        ),
        (SetupStage::AwaitAdvinfo(_), SetupEvent::AdvinfoRead(Ok(true))) => (
            SetupStage::Done,
            SetupActionView::UseBtmgmt(adapter, BTMGMT_INSTANCE_ID),
        ),
        (SetupStage::AwaitAdvinfo(m), SetupEvent::AdvinfoRead(Ok(false))) => (
            SetupStage::Done,
            SetupActionView::Fail(BtmgmtErrorView::AddFailed(m)),
        ),
        (SetupStage::AwaitAdvinfo(_), SetupEvent::AdvinfoRead(Err(e))) => (
            SetupStage::Done,
            SetupActionView::Fail(BtmgmtErrorView::AdvinfoFailed(e@)),
        ),
        _ => (stage, SetupActionView::UseBluer),
    }
}

impl AdvertisementSetup {
    /// Where the setup stands.
    pub closed spec fn stage(&self) -> SetupStage {
        match self.stage {
            Stage::AwaitBluer => SetupStage::AwaitBluer,
            Stage::AwaitRoot => SetupStage::AwaitRoot,
            Stage::AwaitRemoval => SetupStage::AwaitRemoval,
            Stage::AwaitAdd => SetupStage::AwaitAdd,
            Stage::AwaitAdvinfo(m) => SetupStage::AwaitAdvinfo(m@),
            Stage::Done => SetupStage::Done,
        }
    }

    /// The adapter being set up.
    pub closed spec fn adapter(&self) -> Seq<char> {
        self.adapter_name@
    }

    /// Starts the setup for `adapter_name`: the first action is the D-Bus registration.
    pub fn start(adapter_name: String) -> (r: (Self, SetupAction))
        ensures
            r.0.stage() == SetupStage::AwaitBluer,
            r.0.adapter() == adapter_name@,
            r.1@ == SetupActionView::AdvertiseWithBluer,
    {
        (AdvertisementSetup { adapter_name, stage: Stage::AwaitBluer }, SetupAction::AdvertiseWithBluer)
    }

    /// Takes the caller's report of the last action and answers the next one.
    pub fn step(&mut self, event: SetupEvent) -> (action: SetupAction)
        requires
            answers(old(self).stage(), event),
        ensures
            final(self).adapter() == old(self).adapter(),
            (final(self).stage(), action@) == setup_step(old(self).stage(), old(self).adapter(), event),
    {
        let mut stage = Stage::Done;
        std::mem::swap(&mut stage, &mut self.stage);
        match (stage, event) {
            (Stage::AwaitBluer, SetupEvent::BluerAttempted(ok)) => {
                if ok {
                    SetupAction::UseBluer
                } else {
                    self.stage = Stage::AwaitRoot;
                    SetupAction::CheckRoot
                }
            },
            (Stage::AwaitRoot, SetupEvent::RootChecked(r)) => {
                match r {
                    Ok(true) => {
                        self.stage = Stage::AwaitRemoval;
                        SetupAction::RunBtmgmt(rm_adv_command(self.adapter_name.as_str(), BTMGMT_INSTANCE_ID))
                    },
                    Ok(false) => SetupAction::Fail(BtmgmtError::NotRoot),
                    Err(m) => SetupAction::Fail(BtmgmtError::RootCheckFailed(m)),
                }
            },
            (Stage::AwaitRemoval, SetupEvent::CommandFinished(_)) => {
                self.stage = Stage::AwaitAdd;
                let uuid = uuid_string(SERVICE_UUID);
                SetupAction::RunBtmgmt(add_adv_command(self.adapter_name.as_str(), uuid.as_str(), BTMGMT_INSTANCE_ID))
            },
            (Stage::AwaitAdd, SetupEvent::CommandFinished(r)) => {
                match r {
                    Ok(()) => SetupAction::UseBtmgmt(
                        BtmgmtAdvertisementHandle { adapter_name: self.adapter_name.clone(), instance_id: BTMGMT_INSTANCE_ID },
                    ),
                    Err(m) => {
                        self.stage = Stage::AwaitAdvinfo(m);
                        SetupAction::QueryAdvinfo(advinfo_command(self.adapter_name.as_str()))
                    },
                }
            },
            (Stage::AwaitAdvinfo(m), SetupEvent::AdvinfoRead(r)) => {
                match r {
                    Ok(true) => SetupAction::UseBtmgmt(
                        BtmgmtAdvertisementHandle { adapter_name: self.adapter_name.clone(), instance_id: BTMGMT_INSTANCE_ID },
                    ),
                    Ok(false) => SetupAction::Fail(BtmgmtError::AddFailed(m)),
                    Err(e) => SetupAction::Fail(BtmgmtError::AdvinfoFailed(e)),
                }
            },
            (stage, _) => {
                self.stage = stage;
                SetupAction::UseBluer
            },
        }
    }
}

/// The fallback never registers through `btmgmt` without a root check that
/// reported root: from the check, a non-root or failed answer ends the setup
/// in failure.
pub proof fn law_btmgmt_requires_root(adapter: Seq<char>, answer: Result<bool, String>)
    requires
        !(answer == Ok::<bool, String>(true)),
    ensures
        setup_step(SetupStage::AwaitRoot, adapter, SetupEvent::RootChecked(answer)).0 == SetupStage::Done,
        setup_step(SetupStage::AwaitRoot, adapter, SetupEvent::RootChecked(answer)).1 is Fail,
{
}

/// A failed `add-adv` is forgiven exactly when `advinfo` still lists an
/// instance; when it lists none, the failure of `add-adv` is what is reported.
pub proof fn law_add_failure_checked_by_advinfo(adapter: Seq<char>, add_error: Seq<char>, listed: bool)
    ensures
        setup_step(SetupStage::AwaitAdvinfo(add_error), adapter, SetupEvent::AdvinfoRead(Ok(listed))).1 == (if listed {
            SetupActionView::UseBtmgmt(adapter, BTMGMT_INSTANCE_ID)
        } else {
            SetupActionView::Fail(BtmgmtErrorView::AddFailed(add_error))
        }),
{
}

} // verus!
