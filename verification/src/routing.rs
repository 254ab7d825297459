//! Message routing and the fixed reply texts: a message with a document goes
//! to the transfer flow, a leading slash makes a command, a text that parses
//! as a URL takes the link path, and everything else gets the hint reply.

use vstd::prelude::*;
use vstd::string::StrSliceExecFns;
use crate::numfmt::{spec_dec, spec_tenths, tenths_dec, u64_dec};

verus! {

/// Whether the `url` crate accepts this text as an absolute URL. The parse is
/// a function of the characters alone.
pub uninterp spec fn url_accepts(s: Seq<char>) -> bool;

/// Relies on url's `Url::parse`: deterministic validation of the text.
#[verifier::external_body]
fn is_valid_url(text: &str) -> (r: bool)
    ensures
        r == url_accepts(text@),
{
    url::Url::parse(text).is_ok()
}

/// Character-for-character string equality.
pub fn chars_eq(a: &str, b: &str) -> (r: bool)
    ensures
        r == (a@ == b@),
{
    let n = a.unicode_len();
    if n != b.unicode_len() {
        proof {
            assert(a@.len() != b@.len());
        }
        return false;
    }
    let mut i: usize = 0;
    while i < n
        invariant
            i <= n,
            n == a@.len(),
            n == b@.len(),
            forall|j: int| 0 <= j < i ==> a@[j] == b@[j],
        decreases n - i,
    {
        if a.get_char(i) != b.get_char(i) {
            return false;
        }
        i = i + 1;
    }
    proof {
        assert(a@ =~= b@);
    }
    true
}

/// The needle stands in the haystack starting at `k`.
pub open spec fn sub_at(hay: Seq<char>, needle: Seq<char>, k: int) -> bool {
    &&& 0 <= k
    &&& k + needle.len() <= hay.len()
    &&& forall|j: int| 0 <= j < needle.len() ==> hay[k + j] == needle[j]
}

/// The needle stands somewhere in the haystack.
pub open spec fn spec_contains(hay: Seq<char>, needle: Seq<char>) -> bool {
    exists|k: int| sub_at(hay, needle, k)
}

/// Substring search, character for character.
pub fn str_contains(hay: &str, needle: &str) -> (r: bool)
    ensures
        r == spec_contains(hay@, needle@),
{
    let hn = hay.unicode_len();
    let nn = needle.unicode_len();
    if nn > hn {
        proof {
            assert forall|k: int| !sub_at(hay@, needle@, k) by {}
        }
        return false;
    }
    let mut k: usize = 0;
    while k <= hn - nn
        invariant
            hn == hay@.len(),
            nn == needle@.len(),
            nn <= hn,
            k <= hn - nn + 1,
            forall|k0: int| 0 <= k0 < k ==> !sub_at(hay@, needle@, k0),
        decreases hn + 1 - nn - k,
    {
        let mut j: usize = 0;
        let mut all_match = true;
        while j < nn && all_match
            invariant
                j <= nn,
                hn == hay@.len(),
                nn == needle@.len(),
                k + nn <= hn,
                all_match ==> forall|j0: int| 0 <= j0 < j ==> hay@[k + j0] == needle@[j0],
                !all_match ==> !sub_at(hay@, needle@, k as int),
            decreases nn - j + (if all_match {
                1int
            } else {
                0int
            }),
        {
            if hay.get_char(k + j) != needle.get_char(j) {
                all_match = false;
                proof {
                    assert(!sub_at(hay@, needle@, k as int));
                }
            } else {
                j = j + 1;
            }
        }
        if all_match {
            proof {
                assert(sub_at(hay@, needle@, k as int));
            }
            return true;
        }
        k = k + 1;
    }
    proof {
        assert forall|k0: int| !sub_at(hay@, needle@, k0) by {
            if 0 <= k0 <= hn - nn {
                assert(!sub_at(hay@, needle@, k0));
            }
        }
    }
    false
}

/// The four ways an inbound message is handled.
pub enum MessageRoute {
    /// Carries a document: start the transfer flow.
    Document,
    /// Starts with a slash: a command.
    Command,
    /// Parses as a URL.
    Link,
    /// Anything else gets the hint reply.
    Plain,
}

/// The text names a command: its first character is a slash.
pub open spec fn is_command_text(s: Seq<char>) -> bool {
    s.len() > 0 && s[0] == '/'
}

/// Where one inbound message goes.
pub open spec fn spec_route(has_document: bool, text: Seq<char>) -> MessageRoute {
    if has_document {
        MessageRoute::Document
    } else if is_command_text(text) {
        MessageRoute::Command
    } else if url_accepts(text) {
        MessageRoute::Link
    } else {
        MessageRoute::Plain
    }
}

/// Route one inbound message: a document wins, then a leading slash, then a
/// parseable URL, and the rest is plain text.
pub fn classify_message(has_document: bool, text: &str) -> (r: MessageRoute)
    ensures
        r == spec_route(has_document, text@),
{
    if has_document {
        return MessageRoute::Document;
    }
    if text.unicode_len() > 0 && text.get_char(0) == '/' {
        return MessageRoute::Command;
    }
    if is_valid_url(text) {
        return MessageRoute::Link;
    }
    MessageRoute::Plain
}

/// The commands the bot answers.
pub enum Command {
    /// Fetch from the third-party drive: recognised anywhere in the text.
    Gdown,
    Start,
    Ip,
    Info,
    Reboot,
    /// The help text, also the answer to anything unrecognised.
    Help,
}

/// Which command a text names: the drive command anywhere in the text wins;
/// then the exact texts; anything else gets help.
pub open spec fn spec_command(text: Seq<char>) -> Command {
    if spec_contains(text, "/gdown"@) {
        Command::Gdown
    } else if text == "/start"@ {
        Command::Start
    } else if text == "/ip"@ {
        Command::Ip
    } else if text == "/info"@ {
        Command::Info
    } else if text == "/reboot"@ {
        Command::Reboot
    } else {
        Command::Help
    }
}

pub fn parse_command(text: &str) -> (r: Command)
    ensures
        r == spec_command(text@),
{
    if str_contains(text, "/gdown") {
        Command::Gdown
    } else if chars_eq(text, "/start") {
        Command::Start
    } else if chars_eq(text, "/ip") {
        Command::Ip
    } else if chars_eq(text, "/info") {
        Command::Info
    } else if chars_eq(text, "/reboot") {
        Command::Reboot
    } else {
        Command::Help
    }
}

/// The greeting for the start command.
pub fn start_text(name: &str) -> (r: String)
    ensures
        r@ == "Welcom "@ + name@ + ", Send me files to download"@,
{
    proof {
        reveal_strlit("Welcom ");
        reveal_strlit(", Send me files to download");
    }
    let mut r = String::from_str("Welcom ");
    r.append(name);
    r.append(", Send me files to download");
    r
}

/// The help text, greeting the chat by name and listing every command.
pub fn help_text(name: &str) -> (r: String)
    ensures
        r@ == "Hey "@ + name@
            + ", Use these Commadns:.\n/start : To start the bot\n/ip : Get your IP\n/reboot : To reboot the machine\n/info: To get system information\n/help: To get help\n/gdown: To download gdrive files\n\nor send files to download"@,
{
    proof {
        reveal_strlit("Hey ");
        reveal_strlit(
            ", Use these Commadns:.\n/start : To start the bot\n/ip : Get your IP\n/reboot : To reboot the machine\n/info: To get system information\n/help: To get help\n/gdown: To download gdrive files\n\nor send files to download",
        );
    }
    let mut r = String::from_str("Hey ");
    r.append(name);
    r.append(
        ", Use these Commadns:.\n/start : To start the bot\n/ip : Get your IP\n/reboot : To reboot the machine\n/info: To get system information\n/help: To get help\n/gdown: To download gdrive files\n\nor send files to download",
    );
    r
}

/// The answer to the IP command, around the address the machine reports.
pub fn ip_text(address: &str) -> (r: String)
    ensures
        r@ == "Here is your ip: "@ + address@,
{
    proof {
        reveal_strlit("Here is your ip: ");
    }
    let mut r = String::from_str("Here is your ip: ");
    r.append(address);
    r
}

/// Gibibytes in tenths: `bytes * 10 / 2^30`, rounded down.
pub open spec fn spec_gb_tenths(bytes: u64) -> int {
    bytes * 10 / 1073741824
}

/// The answer to the system-info command, from the filesystem's total and
/// available byte counts (rendered in GB with one decimal).
pub fn system_info_text(total_bytes: u64, free_bytes: u64) -> (r: String)
    ensures
        r@ == "Here is your system info: \nTotal Space: "@ + spec_tenths(
            spec_gb_tenths(total_bytes) as nat,
        ) + " GB \nFree Space: "@ + spec_tenths(spec_gb_tenths(free_bytes) as nat) + " GB"@,
{
    proof {
        reveal_strlit("Here is your system info: \nTotal Space: ");
        reveal_strlit(" GB \nFree Space: ");
        reveal_strlit(" GB");
    }
    let total_wide = (total_bytes as u128 * 10) / 1073741824;
    let free_wide = (free_bytes as u128 * 10) / 1073741824;
    proof {
        assert(total_wide <= total_bytes && free_wide <= free_bytes) by (nonlinear_arith)
            requires
                total_wide as int == (total_bytes as int * 10) / 1073741824,
                free_wide as int == (free_bytes as int * 10) / 1073741824,
        ;
    }
    let mut r = String::from_str("Here is your system info: \nTotal Space: ");
    let total_text = tenths_dec(total_wide as u64);
    r.append(total_text.as_str());
    r.append(" GB \nFree Space: ");
    let free_text = tenths_dec(free_wide as u64);
    r.append(free_text.as_str());
    r.append(" GB");
    r
}

/// The destination path: directory, separator, file name.
pub fn dest_path(directory: &str, name: &str) -> (r: String)
    ensures
        r@ == directory@ + "/"@ + name@,
{
    proof {
        reveal_strlit("/");
    }
    let mut r = String::from_str(directory);
    r.append("/");
    r.append(name);
    r
}

/// How long a finished transfer took, as the completion reply shows it:
/// seconds up to a minute, then minutes in tenths, then hours in tenths.
pub open spec fn spec_duration(secs: u64) -> Seq<char> {
    if secs > 3600 {
        spec_tenths((secs * 10 / 3600) as nat) + " hr"@
    } else if secs > 60 {
        spec_tenths((secs * 10 / 60) as nat) + " min"@
    } else {
        spec_dec(secs as nat) + " sec"@
    }
}

/// The reply after a successful transfer: how long it took and where the
/// file was stored.
pub fn completion_text(secs: u64, dest: &str) -> (r: String)
    ensures
        r@ == "Download Completed in "@ + spec_duration(secs) + " \nStored at: "@ + dest@,
{
    proof {
        reveal_strlit("Download Completed in ");
        reveal_strlit(" \nStored at: ");
    }
    let mut r = String::from_str("Download Completed in ");
    let took = duration_text(secs);
    r.append(took.as_str());
    r.append(" \nStored at: ");
    r.append(dest);
    r
}

/// The reply after a failed transfer, around the error's own text.
pub fn failure_text(error: &str) -> (r: String)
    ensures
        r@ == "Failed To Download: "@ + error@,
{
    proof {
        reveal_strlit("Failed To Download: ");
    }
    let mut r = String::from_str("Failed To Download: ");
    r.append(error);
    r
}

pub fn duration_text(secs: u64) -> (r: String)
    ensures
        r@ == spec_duration(secs),
{
    proof {
        reveal_strlit(" hr");
        reveal_strlit(" min");
        reveal_strlit(" sec");
    }
    if secs > 3600 {
        let wide = (secs as u128 * 10) / 3600;
        proof {
            assert(wide <= secs) by (nonlinear_arith)
                requires
                    wide as int == (secs as int * 10) / 3600,
            ;
        }
        let mut r = tenths_dec(wide as u64);
        r.append(" hr");
        r
    } else if secs > 60 {
        let mut r = tenths_dec(secs * 10 / 60);
        r.append(" min");
        r
    } else {
        let mut r = u64_dec(secs);
        r.append(" sec");
        r
    }
}

} // verus!
