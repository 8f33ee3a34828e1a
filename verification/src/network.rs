//! Addresses: the address of a device on the wireless network, and the
//! wireless connection of the device bridge.

use crate::text::text_of;
use crate::text::{
    after, contains, find, found, join, lines, lines_of, owned, same_text, split_whitespace, tail,
    texts, words,
};
use vstd::prelude::*;
use vstd::string::*;

verus! {

/// The index of the first of `parts` that equals `word`.
pub open spec fn position_of(parts: Seq<Seq<char>>, word: Seq<char>) -> Option<int>
    decreases parts.len(),
{
    if parts.len() == 0 {
        None
    } else if parts[0] == word {
        Some(0)
    } else {
        match position_of(parts.drop_first(), word) {
            Some(at) => Some(at + 1),
            None => None,
        }
    }
}

/// The address that a line of the routing table gives for the wireless
/// interface: the word after the first word `src` of a line that names
/// both.
pub open spec fn route_address(line: Seq<char>) -> Option<Seq<char>> {
    if found(line, "wlan0"@) is Some && found(line, "src"@) is Some {
        match position_of(words(line), "src"@) {
            Some(at) => if at + 1 < words(line).len() {
                Some(words(line)[at + 1])
            } else {
                None
            },
            None => None,
        }
    } else {
        None
    }
}

/// What the first line among `table_lines` that gives an address gives.
pub open spec fn route_address_of(table_lines: Seq<Seq<char>>) -> Option<Seq<char>>
    decreases table_lines.len(),
{
    if table_lines.len() == 0 {
        None
    } else if route_address(table_lines[0]) is Some {
        route_address(table_lines[0])
    } else {
        route_address_of(table_lines.drop_first())
    }
}

/// The address in the report of the interface tool: what stands between
/// the first `inet addr:` and the next blank.
pub open spec fn interface_address(report: Seq<char>) -> Option<Seq<char>> {
    match found(report, "inet addr:"@) {
        Some(at) => {
            let rest = after(report, at + 10);
            match found(rest, " "@) {
                Some(end) => Some(rest.take(end)),
                None => None,
            }
        },
        None => None,
    }
}

fn find_word(parts: &Vec<String>, word: &str) -> (at: Option<usize>)
    ensures
        match at {
            Some(i) => position_of(texts(parts@), word@) == Some(i as int) && i < parts@.len(),
            None => position_of(texts(parts@), word@) is None,
        },
{
    let mut i: usize = 0;
    assert(texts(parts@).skip(0) =~= texts(parts@));
    while i < parts.len()
        invariant
            i <= parts@.len(),
            match position_of(texts(parts@).skip(i as int), word@) {
                Some(at) => position_of(texts(parts@), word@) == Some(at + i),
                None => position_of(texts(parts@), word@) is None,
            },
        decreases parts@.len() - i,
    {
        assert(texts(parts@).skip(i as int).drop_first() =~= texts(parts@).skip(i + 1));
        if same_text(parts[i].as_str(), word) {
            return Some(i);
        }
        i = i + 1;
    }
    None
}

fn address_in_route(line: &str) -> (address: Option<String>)
    ensures
        text_of(address) == route_address(line@),
{
    if contains(line, "wlan0") && contains(line, "src") {
        let mut parts = split_whitespace(line);
        match find_word(&parts, "src") {
            Some(at) => {
                let total = parts.len();
                if at + 1 < total {
                    Some(parts.swap_remove(at + 1))
                } else {
                    None
                }
            },
            None => None,
        }
    } else {
        None
    }
}

/// The arguments that ask a device for its routing table.
pub fn route_args(serial: &str) -> (args: Vec<String>)
    ensures
        texts(args@) == seq!["-s"@, serial@, "shell"@, "ip"@, "route"@],
{
    let mut args: Vec<String> = Vec::new();
    args.push(owned("-s"));
    args.push(owned(serial));
    args.push(owned("shell"));
    args.push(owned("ip"));
    args.push(owned("route"));
    args
}

/// The arguments that ask a device for its wireless interface.
pub fn ifconfig_args(serial: &str) -> (args: Vec<String>)
    ensures
        texts(args@) == seq!["-s"@, serial@, "shell"@, "ifconfig"@, "wlan0"@],
{
    let mut args: Vec<String> = Vec::new();
    args.push(owned("-s"));
    args.push(owned(serial));
    args.push(owned("shell"));
    args.push(owned("ifconfig"));
    args.push(owned("wlan0"));
    args
}

/// The address of the wireless interface in a routing table.
pub fn ip_from_route(stdout: &str) -> (address: Option<String>)
    ensures
        text_of(address) == route_address_of(lines_of(stdout@)),
{
    let all = lines(stdout);
    let mut i: usize = 0;
    assert(texts(all@).skip(0) =~= texts(all@));
    while i < all.len()
        invariant
            i <= all@.len(),
            texts(all@) == lines_of(stdout@),
            route_address_of(lines_of(stdout@)) == route_address_of(texts(all@).skip(i as int)),
        decreases all@.len() - i,
    {
        assert(texts(all@).skip(i as int).drop_first() =~= texts(all@).skip(i + 1));
        match address_in_route(all[i].as_str()) {
            Some(address) => {
                return Some(address);
            },
            None => {},
        }
        i = i + 1;
    }
    None
}

/// The address in the report of the interface tool.
pub fn ip_from_ifconfig(stdout: &str) -> (address: Option<String>)
    ensures
        text_of(address) == interface_address(stdout@),
{
    match find(stdout, "inet addr:") {
        Some(at) => {
            proof {
                reveal_strlit("inet addr:");
            }
            let rest = tail(stdout, at + 10);
            match find(rest.as_str(), " ") {
                Some(end) => Some(crate::text::head(rest.as_str(), end)),
                None => None,
            }
        },
        None => None,
    }
}

/// The address of a device, from the answers of its two tools. An answer
/// is absent where its command failed; the second is read only where the
/// first gives no address.
pub fn get_device_ip(route: Option<&str>, ifconfig: Option<&str>) -> (reply: Result<String, String>)
    ensures
        ({
            let first = match route {
                Some(stdout) => route_address_of(lines_of(stdout@)),
                None => None,
            };
            let second = match ifconfig {
                Some(stdout) => interface_address(stdout@),
                None => None,
            };
            match reply {
                Ok(address) => if first is Some {
                    Some(address@) == first
                } else {
                    Some(address@) == second
                },
                Err(message) => first is None && second is None && message@
                    == "Could not detect device IP via ADB"@,
            }
        }),
{
    match route {
        Some(stdout) => match ip_from_route(stdout) {
            Some(address) => {
                return Ok(address);
            },
            None => {},
        },
        None => {},
    }
    match ifconfig {
        Some(stdout) => match ip_from_ifconfig(stdout) {
            Some(address) => {
                return Ok(address);
            },
            None => {},
        },
        None => {},
    }
    Err(owned("Could not detect device IP via ADB"))
}

/// The address and port of a device as the bridge takes them.
pub fn target(ip: &str, port: &str) -> (text: String)
    ensures
        text@ == ip@ + ":"@ + port@,
{
    let mut text = join(ip, ":");
    text.append(port);
    text
}

pub fn connect_args(ip: &str, port: &str) -> (args: Vec<String>)
    ensures
        texts(args@) == seq!["connect"@, ip@ + ":"@ + port@],
{
    let mut args: Vec<String> = Vec::new();
    args.push(owned("connect"));
    args.push(target(ip, port));
    args
}

pub fn pair_args(ip: &str, port: &str, code: &str) -> (args: Vec<String>)
    ensures
        texts(args@) == seq!["pair"@, ip@ + ":"@ + port@, code@],
{
    let mut args: Vec<String> = Vec::new();
    args.push(owned("pair"));
    args.push(target(ip, port));
    args.push(owned(code));
    args
}

pub fn disconnect_args(ip: &str, port: &str) -> (args: Vec<String>)
    ensures
        texts(args@) == seq!["disconnect"@, ip@ + ":"@ + port@],
{
    let mut args: Vec<String> = Vec::new();
    args.push(owned("disconnect"));
    args.push(target(ip, port));
    args
}

/// Whether a connection attempt failed: the bridge reports some
/// failures in its output only.
pub open spec fn connect_failed(success: bool, stdout: Seq<char>) -> bool {
    !success || found(stdout, "unable to connect"@) is Some || found(stdout, "failed to connect"@)
        is Some
}

fn failure(prefix: &str, stdout: &str, stderr: &str) -> (message: String)
    ensures
        message@ == prefix@ + stdout@ + " "@ + stderr@,
{
    let mut message = join(prefix, stdout);
    message.append(" ");
    message.append(stderr);
    message
}

/// The answer of a connection attempt.
pub fn adb_connect(success: bool, stdout: &str, stderr: &str) -> (reply: Result<String, String>)
    ensures
        !connect_failed(success, stdout@) ==> {
            &&& reply matches Ok(text)
            &&& text@ == stdout@
        },
        connect_failed(success, stdout@) ==> {
            &&& reply matches Err(message)
            &&& message@ == "Connection failed: "@ + stdout@ + " "@ + stderr@
        },
{
    if !success || contains(stdout, "unable to connect") || contains(stdout, "failed to connect") {
        Err(failure("Connection failed: ", stdout, stderr))
    } else {
        Ok(owned(stdout))
    }
}

/// The answer of a pairing attempt.
pub fn adb_pair(success: bool, stdout: &str, stderr: &str) -> (reply: Result<String, String>)
    ensures
        success ==> {
            &&& reply matches Ok(text)
            &&& text@ == stdout@
        },
        !success ==> {
            &&& reply matches Err(message)
            &&& message@ == "Pairing failed: "@ + stdout@ + " "@ + stderr@
        },
{
    if success {
        Ok(owned(stdout))
    } else {
        Err(failure("Pairing failed: ", stdout, stderr))
    }
}

/// The answer of a disconnection: the output as it is.
pub fn adb_disconnect(stdout: &str) -> (reply: String)
    ensures
        reply@ == stdout@,
{
    owned(stdout)
}

} // verus!
