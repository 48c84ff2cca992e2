//! What holds of the values that the library makes and reads: reports,
//! requests, command lines and settings.
//!
//! Each function here proves one law about what executable functions return. A
//! premise `call_ensures(f, args, result)` says that `f`, called with `args`,
//! returned `result`.

use crate::aria2::{
    add_uri, connection_meta, into_task_options, launch_args, status_keys, status_to_progress,
    AddUri, ConnectionMeta, DownloadOptions, Status, StatusKey, TaskOptions, TaskStatus,
};
use crate::channel::{changed_step, wait_step, WaitStep};
use crate::connect::{connect_step, ConnectStep, CONNECT_TIMEOUT_SECS, RETRY_PAUSE_MILLIS};
use crate::downloader::Aria2Downloader;
use crate::error::{rpc_result, spawn_result, Error};
use crate::progress::{finish_result, DownloadProgress, DownloadStatus};
use crate::settings::{whole_seconds, Aria2DownloaderBuilder, Settings};
use crate::text::{blank, decimal_string, hex_string, is_blank, joined, numeral, texts};
use aria2_rs::Error as RpcFailure;
use std::path::PathBuf;
use std::time::Duration;
use vstd::prelude::*;

verus! {

// Reports.

/// Whatever its state, a report repeats what aria2 has answered, field by field,
/// with 0 for a number that is missing; and it is about the task that was asked
/// for.
pub proof fn law_report_repeats_the_answer(gid: &str, st: &Status, progress: DownloadProgress)
    requires
        call_ensures(status_to_progress, (gid, st), progress),
    ensures
        progress.gid@ == gid@,
        st.total_length matches Some(n) ==> progress.total_length == n,
        st.total_length is None ==> progress.total_length == 0,
        st.completed_length matches Some(n) ==> progress.completed_length == n,
        st.completed_length is None ==> progress.completed_length == 0,
        st.download_speed matches Some(n) ==> progress.download_speed == n,
        st.download_speed is None ==> progress.download_speed == 0,
        st.upload_speed matches Some(n) ==> progress.upload_speed == n,
        st.upload_speed is None ==> progress.upload_speed == 0,
        st.error_message matches Some(m) ==> (progress.error_message matches Some(text) && text@
            == m@),
        st.error_message is None ==> progress.error_message is None,
{
    assert(progress@.gid == progress.gid@);
}

/// A report names the state that aria2 has named, and a task without one is
/// pending, whatever else the answer says.
pub proof fn law_report_names_the_state(gid: &str, st: &Status, progress: DownloadProgress)
    requires
        call_ensures(status_to_progress, (gid, st), progress),
    ensures
        progress.status == DownloadStatus::Pending <==> st.status is None,
        progress.status == DownloadStatus::Active <==> st.status == Some(TaskStatus::Active),
        progress.status == DownloadStatus::Waiting <==> st.status == Some(TaskStatus::Waiting),
        progress.status == DownloadStatus::Paused <==> st.status == Some(TaskStatus::Paused),
        progress.status == DownloadStatus::Complete <==> st.status == Some(TaskStatus::Complete),
        progress.status == DownloadStatus::Error <==> st.status == Some(TaskStatus::Error),
        progress.status == DownloadStatus::Removed <==> st.status == Some(TaskStatus::Removed),
{
    assert(progress@.status == progress.status);
}

/// A download that aria2 reports as complete, with as many bytes as it has in
/// all, has finished with all of it transferred.
pub proof fn law_complete_download_is_all_there(
    gid: &str,
    st: &Status,
    progress: DownloadProgress,
    fraction: Option<(u64, u64)>,
    finished: bool,
    n: u64,
)
    requires
        call_ensures(status_to_progress, (gid, st), progress),
        call_ensures(DownloadProgress::transferred, (&progress,), fraction),
        call_ensures(DownloadProgress::is_finished, (&progress,), finished),
        st.status == Some(TaskStatus::Complete),
        st.completed_length == Some(n),
        st.total_length == Some(n),
        n > 0,
    ensures
        fraction == Some((n, n)),
        finished,
{
    law_report_repeats_the_answer(gid, st, progress);
    law_report_names_the_state(gid, st, progress);
    law_finished_states(&progress, finished);
}

/// What has arrived is what was completed, but never more than the total; and it
/// is unknown exactly while the total is.
pub proof fn law_transferred_is_a_part(progress: &DownloadProgress, fraction: Option<(u64, u64)>)
    requires
        call_ensures(DownloadProgress::transferred, (progress,), fraction),
    ensures
        fraction is None <==> progress.total_length == 0,
        fraction matches Some((done, total)) ==> {
            &&& total == progress.total_length
            &&& done <= total
            &&& done <= progress.completed_length
            &&& done == total || done == progress.completed_length
        },
{
}

/// Of two reports on a file of one size, the one with more bytes has no less
/// transferred.
pub proof fn law_transferred_grows(
    less: &DownloadProgress,
    more: &DownloadProgress,
    before: Option<(u64, u64)>,
    after: Option<(u64, u64)>,
)
    requires
        call_ensures(DownloadProgress::transferred, (less,), before),
        call_ensures(DownloadProgress::transferred, (more,), after),
        less.total_length == more.total_length,
        less.completed_length <= more.completed_length,
    ensures
        before is Some <==> after is Some,
        before matches Some((b, t)) ==> (after matches Some((a, u)) && b <= a && t == u),
{
}

/// A download is finished once it is complete, failed or removed, and in no
/// other state.
pub proof fn law_finished_states(progress: &DownloadProgress, finished: bool)
    requires
        call_ensures(DownloadProgress::is_finished, (progress,), finished),
    ensures
        progress.status == DownloadStatus::Complete ==> finished,
        progress.status == DownloadStatus::Error ==> finished,
        progress.status == DownloadStatus::Removed ==> finished,
        progress.status == DownloadStatus::Pending ==> !finished,
        progress.status == DownloadStatus::Active ==> !finished,
        progress.status == DownloadStatus::Waiting ==> !finished,
        progress.status == DownloadStatus::Paused ==> !finished,
{
    assert(progress@.status == progress.status);
}

/// A report without numbers.
pub open spec fn is_without_numbers(progress: DownloadProgress) -> bool {
    &&& progress.total_length == 0
    &&& progress.completed_length == 0
    &&& progress.download_speed == 0
    &&& progress.upload_speed == 0
}

/// The first report on a download says that it is pending, and nothing else.
pub proof fn law_first_report(gid: String, progress: DownloadProgress, blank: DownloadProgress)
    requires
        call_ensures(DownloadProgress::pending, (gid,), progress),
        call_ensures(<DownloadProgress as Default>::default, (), blank),
    ensures
        progress.gid@ == gid@,
        progress.status == DownloadStatus::Pending,
        is_without_numbers(progress),
        progress.error_message is None,
        blank.gid@ == Seq::<char>::empty(),
        blank.status == DownloadStatus::Pending,
        is_without_numbers(blank),
        blank.error_message is None,
{
    assert(progress@.gid == progress.gid@);
    assert(progress@.error_message is None);
    assert(blank@.gid == blank.gid@);
    assert(blank@.error_message is None);
}

/// The report on a download that was given up says that it failed, and why.
pub proof fn law_failure_report(gid: String, message: String, progress: DownloadProgress)
    requires
        call_ensures(DownloadProgress::failed, (gid, message), progress),
    ensures
        progress.gid@ == gid@,
        progress.status == DownloadStatus::Error,
        is_without_numbers(progress),
        progress.error_message matches Some(text) && text@ == message@,
{
    assert(progress@.gid == progress.gid@);
    assert(progress@.error_message == Some(message@));
}

/// The report on a download whose status query failed says that contact was
/// lost, and how.
pub proof fn law_contact_lost_report(gid: String, detail: &str, progress: DownloadProgress)
    requires
        call_ensures(DownloadProgress::contact_lost, (gid, detail), progress),
    ensures
        progress.gid@ == gid@,
        progress.status == DownloadStatus::Error,
        is_without_numbers(progress),
        progress.error_message matches Some(text) && text@ == "lost contact with aria2c: "@
            + detail@,
{
    assert(progress@.gid == progress.gid@);
    assert(progress@.error_message is Some);
}

/// A copy of a report says the same.
pub proof fn law_copies_are_faithful(progress: &DownloadProgress, copy: DownloadProgress)
    requires
        call_ensures(<DownloadProgress as Clone>::clone, (progress,), copy),
    ensures
        copy.gid@ == progress.gid@,
        copy.status == progress.status,
        copy.total_length == progress.total_length,
        copy.completed_length == progress.completed_length,
        copy.download_speed == progress.download_speed,
        copy.upload_speed == progress.upload_speed,
        copy.error_message is Some <==> progress.error_message is Some,
        copy.error_message matches Some(text) ==> (progress.error_message matches Some(m) && text@
            == m@),
{
    assert(copy@.gid == progress@.gid);
    assert(copy@.error_message == progress@.error_message);
}

/// The last report on a download is an error exactly if aria2's state is one,
/// with the message that was reported, or none; otherwise it is the result as it
/// stands.
pub proof fn law_end_of_a_download(
    progress: DownloadProgress,
    result: Result<DownloadProgress, Error>,
)
    requires
        call_ensures(finish_result, (progress,), result),
    ensures
        result is Ok <==> progress.status != DownloadStatus::Error,
        result matches Ok(p) ==> p == progress,
        result matches Err(e) ==> {
            &&& e matches Error::DownloadFailed { gid, message }
            &&& gid@ == progress.gid@
            &&& progress.error_message matches Some(m) ==> message@ == m@
            &&& progress.error_message is None ==> message@ == Seq::<char>::empty()
        },
{
    assert(progress@.gid == progress.gid@);
}

/// A wait for the end of a download: it goes on while the download has not ended
/// and the channel is open, fails with `ChannelClosed` if no end will come, and
/// else ends with the report, which is a failure in aria2's error state only.
pub proof fn law_wait_for_the_end(latest: DownloadProgress, closed: bool, step: WaitStep)
    requires
        call_ensures(wait_step, (latest, closed), step),
    ensures
        latest.status == DownloadStatus::Complete || latest.status == DownloadStatus::Removed
            ==> step == WaitStep::Done(Ok(latest)),
        latest.status == DownloadStatus::Error ==> {
            &&& step matches WaitStep::Done(Err(Error::DownloadFailed { gid, message }))
            &&& gid@ == latest.gid@
            &&& latest.error_message matches Some(m) ==> message@ == m@
            &&& latest.error_message is None ==> message@ == Seq::<char>::empty()
        },
        latest.status == DownloadStatus::Pending || latest.status == DownloadStatus::Active
            || latest.status == DownloadStatus::Waiting || latest.status == DownloadStatus::Paused
            ==> {
            &&& closed ==> step == WaitStep::Done(Err(Error::ChannelClosed))
            &&& !closed ==> step is Await
        },
{
    assert(latest@.gid == latest.gid@);
    assert(latest@.status == latest.status);
}

/// A wait for the next report: an unseen report is always delivered as it is,
/// also a failure and also on a closed channel; `ChannelClosed` comes only when
/// there is none and none will come.
pub proof fn law_wait_for_the_next_report(
    latest: DownloadProgress,
    unseen: bool,
    closed: bool,
    step: WaitStep,
)
    requires
        call_ensures(changed_step, (latest, unseen, closed), step),
    ensures
        unseen <==> step == WaitStep::Done(Ok(latest)),
        !unseen && closed <==> step == WaitStep::Done(Err(Error::ChannelClosed)),
        !unseen && !closed <==> step is Await,
{
}

/// A status query asks for each field of the answer, once.
pub proof fn law_query_asks_for_every_field(keys: Vec<StatusKey>)
    requires
        call_ensures(status_keys, (), keys),
    ensures
        keys@.no_duplicates(),
        forall|key: StatusKey| #[trigger] keys@.contains(key),
{
    assert forall|key: StatusKey| #[trigger] keys@.contains(key) by {
        match key {
            StatusKey::Status => assert(keys@[0] == key),
            StatusKey::TotalLength => assert(keys@[1] == key),
            StatusKey::CompletedLength => assert(keys@[2] == key),
            StatusKey::DownloadSpeed => assert(keys@[3] == key),
            StatusKey::UploadSpeed => assert(keys@[4] == key),
            StatusKey::ErrorMessage => assert(keys@[5] == key),
        }
    }
}

// Requests.

/// `options` is what `opts` asks for: every option as it was given, and every
/// header in order. The header list is absent only if there is none.
pub open spec fn carries(options: TaskOptions, opts: DownloadOptions) -> bool {
    &&& options.dir == opts.dir
    &&& options.out == opts.out
    &&& options.split == opts.split
    &&& options.max_connection_per_server == opts.max_connection_per_server
    &&& options.all_proxy == opts.proxy
    &&& options.header is None <==> opts.headers@.len() == 0
    &&& options.header matches Some(header) ==> {
        &&& header@.len() == opts.headers@.len()
        &&& forall|i: int| 0 <= i < opts.headers@.len() ==> (#[trigger] header@[i]) == opts.headers@[i]
    }
}

/// The request's options are those that the caller gave.
pub proof fn law_options_are_carried(opts: DownloadOptions, options: TaskOptions)
    requires
        call_ensures(into_task_options, (opts,), options),
    ensures
        carries(options, opts),
{
}

/// `request` is for these mirrors, all of them in order, with these options.
pub open spec fn is_request_for(
    request: AddUri,
    urls: Seq<Seq<char>>,
    opts: Option<DownloadOptions>,
) -> bool {
    &&& request.uris@.len() == urls.len()
    &&& forall|i: int| 0 <= i < urls.len() ==> (#[trigger] request.uris@[i])@ == urls[i]
    &&& request.options is Some <==> opts is Some
    &&& request.options matches Some(options) ==> carries(options, opts->0)
}

/// White space, by code point.
pub open spec fn is_space(c: char) -> bool {
    let n = c as int;
    ||| 9 <= n <= 13
    ||| n == 32
    ||| n == 133
    ||| n == 160
    ||| n == 5760
    ||| 8192 <= n <= 8202
    ||| n == 8232
    ||| n == 8233
    ||| n == 8239
    ||| n == 8287
    ||| n == 12288
}

/// Whether `s` holds anything but white space.
pub open spec fn says_something(s: Seq<char>) -> bool {
    exists|i: int| 0 <= i < s.len() && !is_space(#[trigger] s[i])
}

/// A string is blank exactly if it says nothing.
pub proof fn law_blank_says_nothing(s: &str, b: bool)
    requires
        call_ensures(blank, (s,), b),
    ensures
        b <==> !says_something(s@),
        s@.len() == 0 ==> b,
        forall|i: int| 0 <= i < s@.len() && '!' <= #[trigger] s@[i] <= '~' ==> !b,
{
    lemma_blank(s@);
}

proof fn lemma_blank(s: Seq<char>)
    ensures
        is_blank(s) <==> !says_something(s),
{
    if !is_blank(s) {
        let i = choose|i: int| 0 <= i < s.len() && !crate::text::is_white_space(#[trigger] s[i]);
        assert(!is_space(s[i]));
    }
}

/// What a list of mirrors, with these options, is answered: a request for all of
/// them if there is at least one and each says something, and otherwise the
/// complaint that goes with it.
pub open spec fn is_answer_to(
    request: Result<AddUri, Error>,
    urls: Seq<Seq<char>>,
    opts: Option<DownloadOptions>,
) -> bool {
    &&& request is Ok <==> urls.len() > 0 && forall|i: int|
        0 <= i < urls.len() ==> says_something(#[trigger] urls[i])
    &&& request matches Ok(r) ==> is_request_for(r, urls, opts)
    &&& request matches Err(e) ==> {
        &&& e matches Error::InvalidInput { message }
        &&& urls.len() == 0 ==> message@ == "no URI given"@
        &&& urls.len() > 0 ==> message@ == "blank URI"@
    }
}

proof fn lemma_valid(urls: Seq<Seq<char>>)
    ensures
        crate::aria2::valid_uris(urls) <==> urls.len() > 0 && forall|i: int|
            0 <= i < urls.len() ==> says_something(#[trigger] urls[i]),
{
    assert forall|i: int| 0 <= i < urls.len() implies is_blank(#[trigger] urls[i])
        == !says_something(urls[i]) by {
        lemma_blank(urls[i]);
    }
}

/// Any number of mirrors is requested as they were given, with the options that
/// were given, unless there is none or one is blank.
pub proof fn law_mirrors_are_requested<P>(
    downloader: &Aria2Downloader<P>,
    urls: Vec<String>,
    opts: Option<DownloadOptions>,
    request: Result<AddUri, Error>,
    built: Result<AddUri, Error>,
)
    requires
        call_ensures(Aria2Downloader::<P>::download_uris, (downloader, urls, opts), request),
        call_ensures(add_uri, (urls, opts), built),
    ensures
        is_answer_to(request, texts(urls@), opts),
        is_answer_to(built, texts(urls@), opts),
{
    lemma_valid(texts(urls@));
}

/// A single URL is requested as it was given, with the options that were given,
/// unless it is blank.
pub proof fn law_single_url_is_requested<P>(
    downloader: &Aria2Downloader<P>,
    url: &str,
    opts: Option<DownloadOptions>,
    request: Result<AddUri, Error>,
)
    requires
        call_ensures(Aria2Downloader::<P>::download, (downloader, url, opts), request),
    ensures
        request is Ok <==> says_something(url@),
        request matches Ok(r) ==> r.uris@.len() == 1 && r.uris@[0]@ == url@,
        is_answer_to(request, seq![url@], opts),
{
    lemma_valid(seq![url@]);
    assert(seq![url@][0] == url@);
    if let Ok(r) = request {
        assert(texts(r.uris@)[0] == r.uris@[0]@);
        assert(texts(r.uris@).len() == r.uris@.len());
    }
}

/// No option of one download is set for another that does not ask for it.
pub proof fn law_default_options_ask_for_nothing(opts: DownloadOptions, options: TaskOptions)
    requires
        call_ensures(<DownloadOptions as Default>::default, (), opts),
        call_ensures(into_task_options, (opts,), options),
    ensures
        options.dir is None,
        options.out is None,
        options.header is None,
        options.split is None,
        options.max_connection_per_server is None,
        options.all_proxy is None,
{
}

// Numerals.

/// The value of one digit.
pub open spec fn digit_value(c: char) -> int {
    if '0' <= c <= '9' {
        c as int - '0' as int
    } else {
        c as int - 'a' as int + 10
    }
}

/// The number that `s` is in `base`.
pub open spec fn reading(s: Seq<char>, base: int) -> int
    decreases s.len(),
{
    if s.len() == 0 {
        0
    } else {
        reading(s.drop_last(), base) * base + digit_value(s.last())
    }
}

/// A digit of the bases up to sixteen, in lower case.
pub open spec fn is_digit(c: char, base: int) -> bool {
    ('0' <= c <= '9' || 'a' <= c <= 'f') && digit_value(c) < base
}

/// `s` is how `n` is written in `base`: in digits, without leading zeros.
pub open spec fn writes(s: Seq<char>, n: int, base: int) -> bool {
    &&& s.len() > 0
    &&& forall|i: int| 0 <= i < s.len() ==> is_digit(#[trigger] s[i], base)
    &&& s.len() > 1 ==> s[0] != '0'
    &&& reading(s, base) == n
}

proof fn lemma_digit(d: nat)
    requires
        d < 16,
    ensures
        is_digit(crate::text::digit_char(d), 16),
        digit_value(crate::text::digit_char(d)) == d,
        d > 0 ==> crate::text::digit_char(d) != '0',
{
    reveal_strlit("0123456789abcdef");
}

/// Numerals are how numbers are written.
pub(crate) proof fn lemma_numeral_writes(n: nat, base: nat)
    requires
        2 <= base <= 16,
    ensures
        writes(numeral(n, base), n as int, base as int),
        n > 0 ==> numeral(n, base)[0] != '0',
    decreases n,
{
    let s = numeral(n, base);
    if n < base {
        lemma_digit(n);
        assert(s.drop_last() =~= Seq::<char>::empty());
        assert(reading(s.drop_last(), base as int) == 0);
        assert(0 * (base as int) == 0);
    } else {
        vstd::arithmetic::div_mod::lemma_div_decreases(n as int, base as int);
        vstd::arithmetic::div_mod::lemma_fundamental_div_mod(n as int, base as int);
        vstd::arithmetic::div_mod::lemma_mod_bound(n as int, base as int);
        vstd::arithmetic::div_mod::lemma_div_non_zero(n as int, base as int);
        lemma_numeral_writes(n / base, base);
        lemma_digit(n % base);
        assert(s.drop_last() =~= numeral(n / base, base));
        vstd::arithmetic::mul::lemma_mul_is_commutative(base as int, (n / base) as int);
    }
}

/// What is written in decimal or hexadecimal reads back as the number it was.
pub proof fn law_numerals_read_back(n: u64, s: String, m: u128, t: String)
    requires
        call_ensures(decimal_string, (n,), s),
        call_ensures(hex_string, (m,), t),
    ensures
        writes(s@, n as int, 10),
        writes(t@, m as int, 16),
{
    lemma_numeral_writes(n as nat, 10);
    lemma_numeral_writes(m as nat, 16);
}

/// Different numbers are written differently.
pub proof fn law_numerals_differ(n: u128, m: u128, s: String, t: String)
    requires
        call_ensures(hex_string, (n,), s),
        call_ensures(hex_string, (m,), t),
        n != m,
    ensures
        s@ != t@,
{
    lemma_numeral_writes(n as nat, 16);
    lemma_numeral_writes(m as nat, 16);
}

/// Joining puts one text behind the other.
pub proof fn law_joined_is_both(head: &str, tail: &str, s: String)
    requires
        call_ensures(joined, (head, tail), s),
    ensures
        s@.len() == head@.len() + tail@.len(),
        s@.take(head@.len() as int) == head@,
        s@.skip(head@.len() as int) == tail@,
{
    assert(s@.take(head@.len() as int) =~= head@);
    assert(s@.skip(head@.len() as int) =~= tail@);
}

// Starting and reaching the process.

/// `args` is the command line of a server on the port that is written `number`,
/// with `secret`, and with the caller's arguments behind.
pub open spec fn is_command_line(
    args: Seq<Seq<char>>,
    number: Seq<char>,
    secret: Seq<char>,
    extra: Seq<Seq<char>>,
) -> bool {
    &&& args.len() == 5 + extra.len()
    &&& args[0] == "--enable-rpc"@
    &&& args[1] == "--rpc-listen-port="@ + number
    &&& args[2] == "--rpc-secret="@ + secret
    &&& args[3] == "--rpc-listen-all=false"@
    &&& args[4] == "--quiet"@
    &&& forall|i: int| 0 <= i < extra.len() ==> (#[trigger] args[5 + i]) == extra[i]
}

/// `meta` is how a client reaches the local server on the port that is written
/// `number`, and shows that it knows `secret`.
pub open spec fn is_address(meta: ConnectionMeta, number: Seq<char>, secret: Seq<char>) -> bool {
    &&& meta.url@ == "ws://127.0.0.1:"@ + number + "/jsonrpc"@
    &&& meta.token matches Some(token) && token@ == "token:"@ + secret
}

/// The client goes to the port that the server was told to listen on, with the
/// secret that the server was given.
pub proof fn law_client_reaches_server(
    port: u16,
    secret: &str,
    extra: &Vec<String>,
    args: Vec<String>,
    meta: ConnectionMeta,
)
    requires
        call_ensures(launch_args, (port, secret, extra), args),
        call_ensures(connection_meta, (port, secret), meta),
    ensures
        exists|number: Seq<char>| #[trigger]
            writes(number, port as int, 10) && is_command_line(
                texts(args@),
                number,
                secret@,
                texts(extra@),
            ) && is_address(meta, number, secret@),
{
    let number = crate::text::decimal(port as nat);
    lemma_numeral_writes(port as nat, 10);
    assert(writes(number, port as int, 10));
    assert(meta.token is Some);
}

/// The texts of a list are those of its strings, in order.
pub proof fn law_texts_are_the_strings(list: Seq<String>)
    ensures
        texts(list).len() == list.len(),
        forall|i: int| 0 <= i < list.len() ==> (#[trigger] texts(list)[i]) == list[i]@,
{
}

/// A client that has connected is used, however long it took. A failed attempt
/// is repeated as long as the time has not run out, and no longer; the error
/// then names the time that was allowed.
pub proof fn law_connecting_is_retried<C>(
    attempt: Result<C, RpcFailure>,
    elapsed_nanos: u128,
    timeout_secs: u64,
    step: ConnectStep<C>,
)
    requires
        call_ensures(connect_step::<C>, (attempt, elapsed_nanos, timeout_secs), step),
    ensures
        attempt matches Ok(client) ==> step == ConnectStep::Connected(client),
        attempt is Err && elapsed_nanos < timeout_secs * 1_000_000_000 ==> step is Retry,
        attempt is Err && elapsed_nanos >= timeout_secs * 1_000_000_000 ==> step
            == ConnectStep::<C>::Failed(Error::ConnectTimeout(whole_seconds(timeout_secs))),
{
}

/// A new process has ten seconds to answer, and is tried five times a second.
pub proof fn law_connect_times()
    ensures
        CONNECT_TIMEOUT_SECS == 10,
        5 * RETRY_PAUSE_MILLIS == 1000,
{
}

/// What an outside call gave is passed on, and its failure is kept as the cause.
pub proof fn law_outside_failures_are_kept<T>(
    reply: Result<T, RpcFailure>,
    result: Result<T, Error>,
    child: Result<T, std::io::Error>,
    spawned: Result<T, Error>,
    failure: RpcFailure,
    error: Error,
)
    requires
        call_ensures(<Error as From<RpcFailure>>::from, (failure,), error),
        call_ensures(rpc_result::<T>, (reply,), result),
        call_ensures(spawn_result::<T>, (child,), spawned),
    ensures
        reply matches Ok(value) ==> result == Ok::<T, Error>(value),
        reply matches Err(failure) ==> result == Err::<T, Error>(Error::Rpc(failure)),
        error == Error::Rpc(failure),
        child matches Ok(value) ==> spawned == Ok::<T, Error>(value),
        child matches Err(reason) ==> spawned == Err::<T, Error>(Error::ProcessStart(reason)),
{
}

// Settings.

/// Where nothing is asked for: five minutes of idling, the usual port, a query
/// each second and no further arguments.
pub proof fn law_defaults<P>(
    aria2_path: PathBuf,
    builder: Aria2DownloaderBuilder,
    other: Aria2DownloaderBuilder,
    downloader: Aria2Downloader<P>,
    settings: &Settings,
)
    requires
        call_ensures(Aria2Downloader::<P>::builder, (aria2_path,), builder),
        call_ensures(Aria2DownloaderBuilder::new, (aria2_path,), other),
        call_ensures(Aria2DownloaderBuilder::build::<P>, (builder,), downloader) || call_ensures(
            Aria2DownloaderBuilder::build::<P>,
            (other,),
            downloader,
        ),
        call_ensures(Aria2Downloader::<P>::settings, (&downloader,), settings),
    ensures
        settings.aria2_path == aria2_path,
        settings.idle_timeout == whole_seconds(300),
        settings.rpc_port == 6800,
        settings.poll_interval == whole_seconds(1),
        settings.extra_args@.len() == 0,
{
}

/// The shorthand sets the idle timeout, and leaves the rest at its default.
pub proof fn law_shorthand<P>(
    aria2_path: PathBuf,
    idle_timeout: Duration,
    downloader: Aria2Downloader<P>,
    settings: &Settings,
)
    requires
        call_ensures(Aria2Downloader::<P>::new, (aria2_path, idle_timeout), downloader),
        call_ensures(Aria2Downloader::<P>::settings, (&downloader,), settings),
    ensures
        settings.aria2_path == aria2_path,
        settings.idle_timeout == idle_timeout,
        settings.rpc_port == 6800,
        settings.poll_interval == whole_seconds(1),
        settings.extra_args@.len() == 0,
{
}

/// Each builder method sets its own setting in what is built, and no other.
pub proof fn law_settings_are_independent<P>(
    builder: Aria2DownloaderBuilder,
    before: Aria2Downloader<P>,
    time: Duration,
    port: u16,
    args: Vec<String>,
    changed: Aria2DownloaderBuilder,
    after: Aria2Downloader<P>,
    was: &Settings,
    now: &Settings,
)
    requires
        call_ensures(Aria2DownloaderBuilder::build::<P>, (builder,), before),
        call_ensures(Aria2DownloaderBuilder::build::<P>, (changed,), after),
        call_ensures(Aria2Downloader::<P>::settings, (&before,), was),
        call_ensures(Aria2Downloader::<P>::settings, (&after,), now),
    ensures
        call_ensures(Aria2DownloaderBuilder::idle_timeout, (builder, time), changed) ==> {
            &&& now.idle_timeout == time
            &&& now.aria2_path == was.aria2_path
            &&& now.rpc_port == was.rpc_port
            &&& now.poll_interval == was.poll_interval
            &&& now.extra_args == was.extra_args
        },
        call_ensures(Aria2DownloaderBuilder::rpc_port, (builder, port), changed) ==> {
            &&& now.rpc_port == port
            &&& now.aria2_path == was.aria2_path
            &&& now.idle_timeout == was.idle_timeout
            &&& now.poll_interval == was.poll_interval
            &&& now.extra_args == was.extra_args
        },
        call_ensures(Aria2DownloaderBuilder::poll_interval, (builder, time), changed) ==> {
            &&& now.poll_interval == time
            &&& now.aria2_path == was.aria2_path
            &&& now.idle_timeout == was.idle_timeout
            &&& now.rpc_port == was.rpc_port
            &&& now.extra_args == was.extra_args
        },
        call_ensures(Aria2DownloaderBuilder::extra_args, (builder, args), changed) ==> {
            &&& now.extra_args == args
            &&& now.aria2_path == was.aria2_path
            &&& now.idle_timeout == was.idle_timeout
            &&& now.rpc_port == was.rpc_port
            &&& now.poll_interval == was.poll_interval
        },
{
}

} // verus!
