//! Connected devices, as the device listing reports them.

use crate::text::{lines, lines_of, owned, same_text, split_whitespace, texts, trim, trimmed, words};
use vstd::prelude::*;
use vstd::string::*;

verus! {

/// A device of the listing, with what it answered when asked.
#[derive(Clone, Debug, PartialEq, Eq)]
pub struct Device {
    pub udid: String,
    pub model: String,
    /// "device", "offline" or "unauthorized".
    pub state: String,
    pub product: String,
    pub transport_id: String,
    pub android_version: Option<String>,
}

/// One line of the device listing.
#[derive(Clone, Debug, PartialEq, Eq)]
pub struct Listed {
    pub udid: String,
    pub state: String,
}

pub struct ListedModel {
    pub udid: Seq<char>,
    pub state: Seq<char>,
}

impl View for Listed {
    type V = ListedModel;

    open spec fn view(&self) -> ListedModel {
        ListedModel { udid: self.udid@, state: self.state@ }
    }
}

pub open spec fn listed_models(list: Seq<Listed>) -> Seq<ListedModel> {
    Seq::new(list.len(), |i: int| list[i]@)
}

/// The devices that the lines `listing` name: each line of two words at
/// least names one, by its first two words.
pub open spec fn listed_in(listing: Seq<Seq<char>>) -> Seq<ListedModel>
    decreases listing.len(),
{
    if listing.len() == 0 {
        Seq::empty()
    } else if words(listing.last()).len() >= 2 {
        listed_in(listing.drop_last()).push(
            ListedModel { udid: words(listing.last())[0], state: words(listing.last())[1] },
        )
    } else {
        listed_in(listing.drop_last())
    }
}

/// The devices of a device listing. Its first line is a heading.
pub open spec fn devices_of(listing: Seq<char>) -> Seq<ListedModel> {
    if lines_of(listing).len() == 0 {
        Seq::empty()
    } else {
        listed_in(lines_of(listing).drop_first())
    }
}

/// The arguments that ask for the device listing.
pub fn devices_args() -> (args: Vec<String>)
    ensures
        texts(args@) == seq!["devices"@, "-l"@],
{
    let mut args: Vec<String> = Vec::new();
    args.push(owned("devices"));
    args.push(owned("-l"));
    args
}

/// The arguments that ask the device `udid` for the property `name`.
pub fn property_args(udid: &str, name: &str) -> (args: Vec<String>)
    ensures
        texts(args@) == seq!["-s"@, udid@, "shell"@, "getprop"@, name@],
{
    let mut args: Vec<String> = Vec::new();
    args.push(owned("-s"));
    args.push(owned(udid));
    args.push(owned("shell"));
    args.push(owned("getprop"));
    args.push(owned(name));
    args
}

/// Reads the device listing.
pub fn parse_device_list(stdout: &str) -> (list: Vec<Listed>)
    ensures
        listed_models(list@) == devices_of(stdout@),
{
    let all = lines(stdout);
    let mut list: Vec<Listed> = Vec::new();
    if all.len() == 0 {
        return list;
    }
    let ghost body = texts(all@).drop_first();
    let mut i: usize = 1;
    while i < all.len()
        invariant
            1 <= i <= all@.len(),
            body == texts(all@).drop_first(),
            listed_models(list@) == listed_in(body.take(i - 1)),
        decreases all@.len() - i,
    {
        let line = all[i].as_str();
        let ghost upto = body.take(i as int);
        assert(upto.drop_last() =~= body.take(i - 1));
        let mut parts = split_whitespace(line);
        if parts.len() >= 2 {
            let state = parts.swap_remove(1);
            let udid = parts.swap_remove(0);
            let entry = Listed { udid, state };
            list.push(entry);
        }
        i = i + 1;
    }
    assert(body.take(i - 1) =~= body);
    list
}

/// The devices of a listing that was asked for: the listed devices where
/// the command succeeded, its error output where it failed.
pub fn get_connected_devices(success: bool, stdout: &str, stderr: &str) -> (reply: Result<
    Vec<Listed>,
    String,
>)
    ensures
        success ==> {
            &&& reply matches Ok(list)
            &&& listed_models(list@) == devices_of(stdout@)
        },
        !success ==> {
            &&& reply matches Err(message)
            &&& message@ == stderr@
        },
{
    if success {
        Ok(parse_device_list(stdout))
    } else {
        Err(owned(stderr))
    }
}

/// Whether a listed device is asked for its properties: only one that
/// is ready is.
pub fn is_ready(listed: &Listed) -> (ready: bool)
    ensures
        ready == (listed.state@ == "device"@),
{
    same_text(listed.state.as_str(), "device")
}

/// What a property query says: the answer without white space around
/// it, or "Unknown" where the query could not be run.
pub open spec fn property_text(answer: Option<Seq<char>>) -> Seq<char> {
    match answer {
        Some(answer) => trimmed(answer),
        None => "Unknown"@,
    }
}

fn property(answer: Option<&str>) -> (text: String)
    ensures
        text@ == property_text(
            match answer {
                Some(answer) => Some(answer@),
                None => None,
            },
        ),
{
    match answer {
        Some(answer) => trim(answer),
        None => owned("Unknown"),
    }
}

/// The device that a line of the listing and the answers to the two
/// property queries describe. The answers are read for a ready device
/// only.
pub fn describe_device(listed: Listed, model: Option<&str>, version: Option<&str>) -> (device:
    Device)
    ensures
        device.udid@ == listed.udid@,
        device.state@ == listed.state@,
        device.product@ == ""@,
        device.transport_id@ == ""@,
        listed.state@ == "device"@ ==> {
            &&& device.model@ == property_text(
                match model {
                    Some(answer) => Some(answer@),
                    None => None,
                },
            )
            &&& device.android_version matches Some(text)
            &&& text@ == property_text(
                match version {
                    Some(answer) => Some(answer@),
                    None => None,
                },
            )
        },
        listed.state@ != "device"@ ==> device.model@ == "Unknown"@ && device.android_version is None,
{
    if is_ready(&listed) {
        Device {
            udid: listed.udid,
            model: property(model),
            state: listed.state,
            product: owned(""),
            transport_id: owned(""),
            android_version: Some(property(version)),
        }
    } else {
        Device {
            udid: listed.udid,
            model: owned("Unknown"),
            state: listed.state,
            product: owned(""),
            transport_id: owned(""),
            android_version: None,
        }
    }
}

} // verus!
