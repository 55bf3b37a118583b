//! Telegram bot commands: how a message is read as a command or a ticket
//! reply, what each command answers, and the traffic report's exact text.
//!
//! The webhook, the bot API and the stores are asynchronous ports driven by
//! the application shell; the decisions between their calls are here.
use vstd::prelude::*;

use crate::RepositoryError;
use vstd::arithmetic::div_mod::{
    lemma_div_is_ordered, lemma_div_is_ordered_by_denominator, lemma_fundamental_div_mod,
    lemma_mod_bound,
};
use crate::text::{
    append_str_to, char_start_exec, chars_of, decimal, decimal_text, is_digit, is_whitespace,
    is_ws, parse_integer, parsed_in_range, push_char, string_from, to_owned, trim_start_char,
    ws_start, ws_start_exec,
};

verus! {

#[derive(Clone, Debug, Eq, PartialEq)]
pub struct TelegramPolicy {
    pub app_name: String,
    pub app_url: String,
    pub notifications_enabled: bool,
}

#[derive(Clone, Debug, Eq, PartialEq)]
pub struct TelegramUpdate {
    pub update_id: i64,
    pub message: Option<TelegramMessage>,
    pub chat_join_request: Option<TelegramChatJoinRequest>,
}

#[derive(Clone, Debug, Eq, PartialEq)]
pub struct TelegramMessage {
    pub chat_id: i64,
    pub is_private: bool,
    pub text: Option<String>,
    pub reply_to_text: Option<String>,
}

#[derive(Clone, Copy, Debug, Eq, PartialEq, Structural)]
pub struct TelegramChatJoinRequest {
    pub chat_id: i64,
    pub user_id: i64,
}

#[derive(Clone, Debug, Eq, PartialEq)]
pub struct TelegramUser {
    pub id: i64,
    pub email: String,
    pub is_admin: bool,
    pub is_staff: bool,
    pub uploaded: i64,
    pub downloaded: i64,
    pub transfer_enable: i64,
    pub banned: bool,
    pub expired_at: Option<i64>,
}

#[derive(Clone, Copy, Debug, Eq, PartialEq, Structural)]
pub enum BindTelegramOutcome {
    Bound,
    UserNotFound,
    AlreadyBound,
}

#[derive(Clone, Copy, Debug, Eq, PartialEq, Structural)]
pub enum UnbindTelegramOutcome {
    Unbound,
    UserNotFound,
}

#[derive(Clone, Copy, Debug, Eq, PartialEq, Structural)]
pub enum TelegramParseMode {
    Plain,
    Markdown,
}

#[derive(Clone, Copy, Debug, Eq, PartialEq, Structural)]
pub enum TelegramJoinDecision {
    Approve,
    Decline,
}

/// A failure of the Telegram adapter, as its message.
#[derive(Clone, Debug, Eq, PartialEq)]
pub struct TelegramExternalError(String);

impl TelegramExternalError {
    pub closed spec fn spec_message(&self) -> String {
        self.0
    }

    pub fn new<M: std::fmt::Display>(error: M) -> (r: Self)
        ensures
            vstd::string::to_string_from_display_ensures::<M>(&error, r.spec_message()),
    {
        Self(error.to_string())
    }

    pub fn message(&self) -> (r: &str)
        ensures
            r@ == self.spec_message()@,
    {
        self.0.as_str()
    }
}

#[derive(Debug)]
pub enum TelegramError {
    Repository(RepositoryError),
    External(String),
}

/// An adapter failure as the use case reports it.
pub fn external_error(error: TelegramExternalError) -> (r: TelegramError)
    ensures
        r matches TelegramError::External(m) && m@ == error.spec_message()@,
{
    TelegramError::External(to_owned(error.message()))
}

/// A command failure the user is told about in their chat.
#[derive(Debug)]
pub struct TelegramCommandError {
    pub chat_id: i64,
    pub message: String,
}

impl TelegramCommandError {
    pub fn new(chat_id: i64, message: &str) -> (r: Self)
        ensures
            r.chat_id == chat_id,
            r.message@ == message@,
    {
        Self { chat_id, message: to_owned(message) }
    }
}

pub struct TelegramService<R, E> {
    repository: R,
    external: E,
    policy: TelegramPolicy,
}

impl<R, E> TelegramService<R, E> {
    pub closed spec fn spec_parts(&self) -> (R, E, TelegramPolicy) {
        (self.repository, self.external, self.policy)
    }

    pub fn new(repository: R, external: E, policy: TelegramPolicy) -> (s: Self)
        ensures
            s.spec_parts() == (repository, external, policy),
    {
        Self { repository, external, policy }
    }

    pub fn repository(&self) -> (r: &R)
        ensures
            *r == self.spec_parts().0,
    {
        &self.repository
    }

    pub fn external(&self) -> (r: &E)
        ensures
            *r == self.spec_parts().1,
    {
        &self.external
    }

    pub fn policy(&self) -> (r: &TelegramPolicy)
        ensures
            *r == self.spec_parts().2,
    {
        &self.policy
    }

    /// The `/getlatesturl` answer.
    pub fn latest_url_text(&self) -> (r: String)
        ensures
            r@ == self.spec_parts().2.app_name@ + "的最新网址是："@ + self.spec_parts().2.app_url@,
    {
        let mut text = self.policy.app_name.clone();
        append_str_to(&mut text, "的最新网址是：");
        append_str_to(&mut text, self.policy.app_url.as_str());
        text
    }
}

/// Index of the first whitespace at or after `i` (or the length).
pub open spec fn word_end(s: Seq<char>, i: int) -> int
    decreases s.len() - i,
{
    if i < 0 || i >= s.len() {
        s.len() as int
    } else if is_ws(s[i]) {
        i
    } else {
        word_end(s, i + 1)
    }
}

/// `str::split_whitespace` from position `i`.
pub open spec fn words_from(s: Seq<char>, i: int) -> Seq<Seq<char>>
    decreases s.len() - i,
{
    if i < 0 || i >= s.len() {
        Seq::empty()
    } else if is_ws(s[i]) {
        words_from(s, i + 1)
    } else {
        let e = word_end(s, i);
        if e <= i || e > s.len() {
            Seq::empty()
        } else {
            seq![s.subrange(i, e)] + words_from(s, e)
        }
    }
}

pub open spec fn views(v: Seq<String>) -> Seq<Seq<char>> {
    v.map_values(|s: String| s@)
}

pub proof fn lemma_word_end(s: Seq<char>, i: int)
    requires
        0 <= i <= s.len(),
    ensures
        i <= word_end(s, i) <= s.len(),
        forall|k: int| i <= k < word_end(s, i) ==> !is_ws(#[trigger] s[k]),
        word_end(s, i) < s.len() ==> is_ws(s[word_end(s, i)]),
    decreases s.len() - i,
{
    if i < s.len() && !is_ws(s[i]) {
        lemma_word_end(s, i + 1);
    }
}

/// The whitespace-separated words of a message.
pub fn split_words(text: &str) -> (r: Vec<String>)
    ensures
        views(r@) == words_from(text@, 0),
{
    let v = chars_of(text);
    let n = v.len();
    let mut out: Vec<String> = Vec::new();
    let mut i: usize = 0;
    while i < n
        invariant
            n == v@.len(),
            v@ == text@,
            i <= n,
            views(out@) + words_from(v@, i as int) == words_from(v@, 0),
        decreases n - i,
    {
        if is_whitespace(v[i]) {
            i = i + 1;
        } else {
            let mut e = i;
            while e < n && !is_whitespace(v[e])
                invariant
                    i <= e <= n,
                    n == v@.len(),
                    word_end(v@, i as int) == word_end(v@, e as int),
                decreases n - e,
            {
                e = e + 1;
            }
            proof {
                lemma_word_end(v@, i as int);
            }
            let word = string_from(&v, i, e);
            let ghost before = out@;
            out.push(word);
            proof {
                assert(views(out@) =~= views(before).push(v@.subrange(i as int, e as int)));
                assert(words_from(v@, i as int) == seq![v@.subrange(i as int, e as int)] + words_from(
                    v@,
                    e as int,
                ));
                assert(views(out@) + words_from(v@, e as int) =~= views(before) + words_from(
                    v@,
                    i as int,
                ));
            }
            i = e;
        }
    }
    proof {
        assert(views(out@) + words_from(v@, n as int) =~= views(out@));
    }
    out
}

/// A command is a first word starting with `/`; the rest are its
/// arguments.
pub open spec fn command_parts(text: Seq<char>) -> Option<(Seq<char>, Seq<Seq<char>>)> {
    let w = words_from(text, 0);
    if w.len() > 0 && w[0].len() > 0 && w[0][0] == '/' {
        Some((w[0], w.skip(1)))
    } else {
        None
    }
}

/// `telegram_command_parts`.
pub fn telegram_command_parts(text: &str) -> (r: Option<(String, Vec<String>)>)
    ensures
        match command_parts(text@) {
            Some((c, args)) => r matches Some((rc, ra)) && rc@ == c && views(ra@) == args,
            None => r is None,
        },
{
    let mut words = split_words(text);
    if words.len() == 0 {
        return None;
    }
    let ghost all = views(words@);
    let first = words.remove(0);
    proof {
        assert(views(words@) =~= all.skip(1));
        assert(first@ == all[0]);
    }
    let fv = chars_of(first.as_str());
    if fv.len() > 0 && fv[0] == '/' {
        Some((first, words))
    } else {
        None
    }
}

/// The ticket a reply quotes: the first run of digits after the first `#`
/// (past whitespace and backticks), read as an `i64`.
pub open spec fn reply_ticket_id(text: Seq<char>) -> Option<int> {
    match crate::text::find(text, '#') {
        Some(h) => {
            let after = text.skip(h + 1);
            let t = after.skip(ws_start(after, 0));
            let u = trim_start_char(t, '`');
            let a = digit_start(u, 0);
            let b = digit_end(u, a);
            parsed_in_range(u.subrange(a, b), i64::MIN as int, i64::MAX as int)
        },
        None => None,
    }
}

/// Index of the first ASCII digit at or after `i` (or the length).
pub open spec fn digit_start(s: Seq<char>, i: int) -> int
    decreases s.len() - i,
{
    if i < 0 || i >= s.len() {
        s.len() as int
    } else if is_digit(s[i]) {
        i
    } else {
        digit_start(s, i + 1)
    }
}

/// Index of the first non-digit at or after `i` (or the length).
pub open spec fn digit_end(s: Seq<char>, i: int) -> int
    decreases s.len() - i,
{
    if i < 0 || i >= s.len() {
        s.len() as int
    } else if is_digit(s[i]) {
        digit_end(s, i + 1)
    } else {
        i
    }
}

pub proof fn lemma_digit_scan(s: Seq<char>, i: int)
    requires
        0 <= i <= s.len(),
    ensures
        i <= digit_start(s, i) <= s.len(),
        digit_start(s, i) <= digit_end(s, digit_start(s, i)) <= s.len(),
    decreases s.len() - i,
{
    if i < s.len() && !is_digit(s[i]) {
        lemma_digit_scan(s, i + 1);
    } else {
        lemma_digit_end(s, i);
    }
}

pub proof fn lemma_digit_end(s: Seq<char>, i: int)
    requires
        0 <= i <= s.len(),
    ensures
        i <= digit_end(s, i) <= s.len(),
    decreases s.len() - i,
{
    if i < s.len() && is_digit(s[i]) {
        lemma_digit_end(s, i + 1);
    }
}

/// `telegram_reply_ticket_id`.
pub fn telegram_reply_ticket_id(text: &str) -> (r: Option<i64>)
    ensures
        match reply_ticket_id(text@) {
            Some(v) => r == Some(v as i64),
            None => r is None,
        },
{
    let v = chars_of(text);
    let n = v.len();
    proof {
        crate::text::lemma_find_from(v@, 0, '#');
    }
    let h = match crate::text::find_exec(&v, 0, '#') {
        Some(h) => h,
        None => {
            return None;
        },
    };
    let after = chars_of(string_from(&v, h + 1, n).as_str());
    proof {
        assert(after@ =~= v@.skip(h + 1));
    }
    let a0 = ws_start_exec(&after);
    let t = chars_of(string_from(&after, a0, after.len()).as_str());
    proof {
        assert(t@ =~= after@.skip(a0 as int));
    }
    let b0 = char_start_exec(&t, '`');
    let u = chars_of(string_from(&t, b0, t.len()).as_str());
    let mut a: usize = 0;
    while a < u.len() && !('0' <= u[a] && u[a] <= '9')
        invariant
            a <= u@.len(),
            digit_start(u@, 0) == digit_start(u@, a as int),
        decreases u@.len() - a,
    {
        a = a + 1;
    }
    let mut b: usize = a;
    while b < u.len() && '0' <= u[b] && u[b] <= '9'
        invariant
            a <= b <= u@.len(),
            digit_end(u@, a as int) == digit_end(u@, b as int),
        decreases u@.len() - b,
    {
        b = b + 1;
    }
    let digits = string_from(&u, a, b);
    parse_integer(digits.as_str(), i64::MIN, i64::MAX)
}

/// The commands the bot answers.
#[derive(Clone, Copy, Debug, Eq, PartialEq, Structural)]
pub enum TelegramCommand {
    Bind,
    Unbind,
    Traffic,
    LatestUrl,
    Ignored,
}

/// A command addressed to another bot (`/cmd@other_bot`) is ignored.
pub open spec fn command_kind(command: Seq<char>, bot_username: Option<Seq<char>>) -> TelegramCommand {
    let (name, target) = match crate::text::find(command, '@') {
        Some(i) => (command.take(i), command.skip(i + 1)),
        None => (command, Seq::<char>::empty()),
    };
    if target.len() > 0 && Some(target) != bot_username {
        TelegramCommand::Ignored
    } else if name == "/bind"@ {
        TelegramCommand::Bind
    } else if name == "/unbind"@ {
        TelegramCommand::Unbind
    } else if name == "/traffic"@ {
        TelegramCommand::Traffic
    } else if name == "/getlatesturl"@ {
        TelegramCommand::LatestUrl
    } else {
        TelegramCommand::Ignored
    }
}

/// Whether a command names a bot, so the bot's own name is needed.
pub fn command_names_bot(command: &str) -> (r: bool)
    ensures
        r == (match crate::text::find(command@, '@') {
            Some(i) => i + 1 < command@.len(),
            None => false,
        }),
{
    let v = chars_of(command);
    proof {
        crate::text::lemma_find_from(v@, 0, '@');
    }
    let n = v.len();
    match crate::text::find_exec(&v, 0, '@') {
        Some(i) => i + 1 < n,
        None => false,
    }
}

/// `normalize_command` and the dispatch: which command a message's first
/// word asks for. `bot_username` is the bot's own name, when the command
/// names one.
pub fn classify_command(command: &str, bot_username: Option<&str>) -> (r: TelegramCommand)
    ensures
        r == command_kind(
            command@,
            match bot_username {
                Some(b) => Some(b@),
                None => None,
            },
        ),
{
    let v = chars_of(command);
    let n = v.len();
    proof {
        crate::text::lemma_find_from(v@, 0, '@');
    }
    let (name, target) = match crate::text::find_exec(&v, 0, '@') {
        Some(i) => {
            let name = string_from(&v, 0, i);
            let target = string_from(&v, i + 1, n);
            proof {
                assert(name@ =~= v@.take(i as int));
                assert(target@ =~= v@.skip(i + 1));
            }
            (name, target)
        },
        None => {
            let name = string_from(&v, 0, n);
            proof {
                assert(name@ =~= v@);
            }
            (name, String::new())
        },
    };
    if chars_of(target.as_str()).len() > 0 {
        let same = match bot_username {
            Some(b) => crate::text::str_eq(b, target.as_str()),
            None => false,
        };
        if !same {
            return TelegramCommand::Ignored;
        }
    }
    let name = name.as_str();
    if crate::text::str_eq(name, "/bind") {
        TelegramCommand::Bind
    } else if crate::text::str_eq(name, "/unbind") {
        TelegramCommand::Unbind
    } else if crate::text::str_eq(name, "/traffic") {
        TelegramCommand::Traffic
    } else if crate::text::str_eq(name, "/getlatesturl") {
        TelegramCommand::LatestUrl
    } else {
        TelegramCommand::Ignored
    }
}

/// The subscription URL a `/bind` carries: its first non-blank argument.
pub fn bind_argument(chat_id: i64, args: &Vec<String>) -> (r: Result<&str, TelegramCommandError>)
    ensures
        args@.len() > 0 && crate::text::trim(args@[0]@).len() > 0 ==> (r matches Ok(u) && u@
            == args@[0]@),
        !(args@.len() > 0 && crate::text::trim(args@[0]@).len() > 0) ==> (r matches Err(e)
            && e.chat_id == chat_id && e.message@ == "参数有误，请携带订阅地址发送"@),
{
    if args.len() > 0 && !crate::text::is_blank(args[0].as_str()) {
        Ok(args[0].as_str())
    } else {
        Err(TelegramCommandError::new(chat_id, "参数有误，请携带订阅地址发送"))
    }
}

/// What a bind attempt tells the user.
pub fn bind_reply(chat_id: i64, outcome: BindTelegramOutcome) -> (r: Result<
    &'static str,
    TelegramCommandError,
>)
    ensures
        match outcome {
            BindTelegramOutcome::Bound => r matches Ok(t) && t@ == "绑定成功"@,
            BindTelegramOutcome::UserNotFound => r matches Err(e) && e.chat_id == chat_id
                && e.message@ == "用户不存在"@,
            BindTelegramOutcome::AlreadyBound => r matches Err(e) && e.chat_id == chat_id
                && e.message@ == "该账号已经绑定了Telegram账号"@,
        },
{
    match outcome {
        BindTelegramOutcome::Bound => Ok("绑定成功"),
        BindTelegramOutcome::UserNotFound => Err(TelegramCommandError::new(chat_id, "用户不存在")),
        BindTelegramOutcome::AlreadyBound => Err(
            TelegramCommandError::new(chat_id, "该账号已经绑定了Telegram账号"),
        ),
    }
}

/// What an unbind attempt tells the user.
pub fn unbind_reply(outcome: UnbindTelegramOutcome) -> (r: &'static str)
    ensures
        outcome == UnbindTelegramOutcome::Unbound ==> r@ == "解绑成功"@,
        outcome == UnbindTelegramOutcome::UserNotFound ==> r@
            == "没有查询到您的用户信息，请先绑定账号"@,
{
    match outcome {
        UnbindTelegramOutcome::Unbound => "解绑成功",
        UnbindTelegramOutcome::UserNotFound => "没有查询到您的用户信息，请先绑定账号",
    }
}

/// A join request is approved exactly when the user's subscription is
/// available.
pub fn join_decision(available: bool) -> (r: TelegramJoinDecision)
    ensures
        available <==> r == TelegramJoinDecision::Approve,
{
    if available {
        TelegramJoinDecision::Approve
    } else {
        TelegramJoinDecision::Decline
    }
}

/// Only operators may answer tickets from Telegram.
pub fn may_reply_ticket(user: &TelegramUser) -> (r: bool)
    ensures
        r == (user.is_admin || user.is_staff),
{
    user.is_admin || user.is_staff
}

/// The confirmation sent after a ticket reply.
pub fn ticket_replied_text(ticket_id: i64) -> (r: String)
    ensures
        r@ == "#`"@ + crate::text::signed_decimal(ticket_id as int) + "` 的工单已回复成功"@,
{
    let mut text = to_owned("#`");
    let id = crate::text::signed_decimal_text(ticket_id);
    append_str_to(&mut text, id.as_str());
    append_str_to(&mut text, "` 的工单已回复成功");
    text
}

/// The notice operators get after a ticket reply.
pub fn ticket_reply_notice(ticket_id: i64, email: &str) -> (r: String)
    ensures
        r@ == "#`"@ + crate::text::signed_decimal(ticket_id as int) + "` 的工单已由 "@ + email@
            + " 进行回复"@,
{
    let mut text = to_owned("#`");
    let id = crate::text::signed_decimal_text(ticket_id);
    append_str_to(&mut text, id.as_str());
    append_str_to(&mut text, "` 的工单已由 ");
    append_str_to(&mut text, email);
    append_str_to(&mut text, " 进行回复");
    text
}

/// The used and remaining traffic of a user, when they fit an `i64`.
pub fn traffic_usage(chat_id: i64, user: &TelegramUser) -> (r: Result<(i64, i64), TelegramCommandError>)
    ensures
        ({
            let used = user.uploaded + user.downloaded;
            let remaining = user.transfer_enable - used;
            if i64::MIN <= used <= i64::MAX && i64::MIN <= remaining <= i64::MAX {
                r == Ok::<(i64, i64), TelegramCommandError>((used as i64, remaining as i64))
            } else {
                r matches Err(e) && e.chat_id == chat_id && e.message@ == "用户流量超出支持范围"@
            }
        }),
{
    let used = match user.uploaded.checked_add(user.downloaded) {
        Some(u) => u,
        None => {
            return Err(TelegramCommandError::new(chat_id, "用户流量超出支持范围"));
        },
    };
    match user.transfer_enable.checked_sub(used) {
        Some(remaining) => Ok((used, remaining)),
        None => Err(TelegramCommandError::new(chat_id, "用户流量超出支持范围")),
    }
}

/// Two to the power `k`.
pub open spec fn two_pow(k: nat) -> nat
    decreases k,
{
    if k == 0 {
        1
    } else {
        2 * two_pow((k - 1) as nat)
    }
}

/// The number of binary digits of `n`.
pub open spec fn bit_length(n: nat) -> nat
    decreases n,
{
    if n == 0 {
        0
    } else {
        1 + bit_length(n / 2)
    }
}

/// `n` rounded to the nearest multiple of `unit`, ties to an even multiple.
pub open spec fn round_to_multiple(n: nat, unit: nat) -> nat {
    let q = n / unit;
    let r = n % unit;
    if r * 2 > unit || (r * 2 == unit && q % 2 == 1) {
        (q + 1) * unit
    } else {
        q * unit
    }
}

/// The value of a non-negative `i64` once converted to a double: exact up
/// to 2^53, otherwise rounded to 53 significant bits, ties to even.
pub open spec fn as_double(n: nat) -> nat {
    if bit_length(n) <= 53 {
        n
    } else {
        round_to_multiple(n, two_pow((bit_length(n) - 53) as nat))
    }
}

/// `n / d` rounded to the nearest integer, ties to even.
pub open spec fn round_quotient(n: nat, d: nat) -> nat {
    let q = n / d;
    let r = n % d;
    if r * 2 > d || (r * 2 == d && q % 2 == 1) {
        q + 1
    } else {
        q
    }
}

/// A count of hundredths written with at most two decimals and no trailing
/// zeros (`{:.2}` with the zeros and a bare point removed).
pub open spec fn hundredths_text(h: nat) -> Seq<char> {
    let whole = decimal(h / 100);
    let frac = h % 100;
    if frac == 0 {
        whole
    } else if frac % 10 == 0 {
        whole + seq!['.'] + decimal(frac / 10)
    } else {
        whole + seq!['.'] + decimal(frac / 10) + decimal(frac % 10)
    }
}

/// `legacy_traffic_convert`: a byte count in the largest unit it exceeds,
/// to two decimals.
pub open spec fn traffic_text(bytes: int) -> Seq<char> {
    if bytes < 0 {
        "0"@
    } else {
        let v = as_double(bytes as nat);
        let (scale, unit) = if v > 1_073_741_824 {
            (1_073_741_824nat, "GB"@)
        } else if v > 1_048_576 {
            (1_048_576nat, "MB"@)
        } else if v > 1024 {
            (1024nat, "KB"@)
        } else {
            (1nat, "B"@)
        };
        hundredths_text(round_quotient(v * 100, scale)) + " "@ + unit
    }
}

fn bit_length_exec(n: u64) -> (r: u64)
    ensures
        r == bit_length(n as nat),
        r <= 64,
{
    let mut x = n;
    let mut len: u64 = 0;
    proof {
        lemma_bit_length_u64(n);
    }
    while x > 0
        invariant
            bit_length(n as nat) == len + bit_length(x as nat),
            len + bit_length(x as nat) <= 64,
        decreases x,
    {
        len = len + 1;
        x = x / 2;
    }
    proof {
        lemma_bit_length_u64(n);
    }
    len
}

proof fn lemma_bit_length_u64(n: u64)
    ensures
        bit_length(n as nat) <= 64,
{
    lemma_two_pow_64();
    lemma_bit_length_bound(n as nat, 64);
}

proof fn lemma_two_pow_64()
    ensures
        two_pow(64) == 0x1_0000_0000_0000_0000,
{
    reveal_with_fuel(two_pow, 65);
}

proof fn lemma_bit_length_bound(n: nat, k: nat)
    requires
        n < two_pow(k),
    ensures
        bit_length(n) <= k,
    decreases k,
{
    if n > 0 {
        if k == 0 {
        } else {
            lemma_bit_length_bound(n / 2, (k - 1) as nat);
        }
    }
}

fn two_pow_exec(k: u64) -> (r: u128)
    requires
        k <= 64,
    ensures
        r == two_pow(k as nat),
{
    let mut r: u128 = 1;
    let mut i: u64 = 0;
    proof {
        lemma_two_pow_64();
        lemma_two_pow_mono(0, 64);
    }
    while i < k
        invariant
            i <= k <= 64,
            r == two_pow(i as nat),
            r <= two_pow(64),
            two_pow(64) == 0x1_0000_0000_0000_0000,
        decreases k - i,
    {
        proof {
            lemma_two_pow_mono(i as nat + 1, 64);
        }
        r = r * 2;
        i = i + 1;
    }
    r
}

proof fn lemma_two_pow_mono(a: nat, b: nat)
    requires
        a <= b,
    ensures
        two_pow(a) <= two_pow(b),
    decreases b,
{
    if a < b {
        lemma_two_pow_mono(a, (b - 1) as nat);
    }
}

fn round_quotient_exec(n: u128, d: u128) -> (r: u128)
    requires
        0 < d <= 0x1_0000_0000_0000_0000,
        n < 0x1_0000_0000_0000_0000_0000_0000,
    ensures
        r == round_quotient(n as nat, d as nat),
{
    let q = n / d;
    let rem = n % d;
    if rem * 2 > d || (rem * 2 == d && q % 2 == 1) {
        q + 1
    } else {
        q
    }
}

fn hundredths_text_exec(h: u128) -> (r: String)
    requires
        h <= u64::MAX,
    ensures
        r@ == hundredths_text(h as nat),
{
    let whole = decimal_text((h / 100) as u64);
    let frac = (h % 100) as u64;
    let mut text = whole;
    if frac == 0 {
        return text;
    }
    push_char(&mut text, '.');
    let tens = decimal_text(frac / 10);
    append_str_to(&mut text, tens.as_str());
    if frac % 10 != 0 {
        let ones = decimal_text(frac % 10);
        append_str_to(&mut text, ones.as_str());
    }
    text
}

proof fn lemma_two_pow_positive(k: nat)
    ensures
        two_pow(k) >= 1,
    decreases k,
{
    if k > 0 {
        lemma_two_pow_positive((k - 1) as nat);
    }
}

proof fn lemma_hundredths_bound(v: nat, scale: nat)
    requires
        v <= 0x8000_0000_0000_0800,
        (scale == 1 && v <= 1024) || scale == 1024 || scale == 1_048_576 || scale
            == 1_073_741_824,
    ensures
        round_quotient(v * 100, scale) <= 0xffff_ffff_ffff_ffff,
{
    if scale == 1 {
        assert((v * 100) / 1 == v * 100);
    } else {
        lemma_div_is_ordered_by_denominator((v * 100) as int, 1024, scale as int);
        lemma_div_is_ordered((v * 100) as int, 0x8000_0000_0000_0800int * 100, 1024);
        assert((0x8000_0000_0000_0800int * 100) / 1024 == 900719925474099400);
    }
}

/// `legacy_traffic_convert`, computed exactly in integers.
pub fn legacy_traffic_convert(bytes: i64) -> (r: String)
    ensures
        r@ == traffic_text(bytes as int),
{
    if bytes < 0 {
        return to_owned("0");
    }
    let n = bytes as u64;
    let len = bit_length_exec(n);
    let v: u128 = if len <= 53 {
        n as u128
    } else {
        let unit = two_pow_exec(len - 53);
        proof {
            lemma_two_pow_mono((len - 53) as nat, 11);
            reveal_with_fuel(two_pow, 12);
            assert(two_pow(11) == 2048);
            lemma_two_pow_positive((len - 53) as nat);
        }
        let q = (n as u128) / unit;
        let rem = (n as u128) % unit;
        proof {
            lemma_fundamental_div_mod(n as int, unit as int);
            lemma_mod_bound(n as int, unit as int);
            assert((q + 1) * unit == unit * q + unit) by (nonlinear_arith);
            assert(q * unit == unit * q) by (nonlinear_arith);
        }
        if rem * 2 > unit || (rem * 2 == unit && q % 2 == 1) {
            (q + 1) * unit
        } else {
            q * unit
        }
    };
    assert(v <= 0x8000_0000_0000_0800);
    let (scale, unit): (u128, &str) = if v > 1_073_741_824 {
        (1_073_741_824, "GB")
    } else if v > 1_048_576 {
        (1_048_576, "MB")
    } else if v > 1024 {
        (1024, "KB")
    } else {
        (1, "B")
    };
    let h = round_quotient_exec(v * 100, scale);
    proof {
        lemma_hundredths_bound(v as nat, scale as nat);
    }
    let mut text = hundredths_text_exec(h);
    append_str_to(&mut text, " ");
    append_str_to(&mut text, unit);
    text
}

} // verus!
