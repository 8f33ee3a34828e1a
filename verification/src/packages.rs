//! Installed packages, as the package manager lists them.

use crate::order::{is_arrangement, is_stably_sorted, keys_of, sort_order};
use crate::text::{
    chars_of, found, lines, lines_of, owned, same_text, starts_with, string_of, texts, trim,
    trimmed,
};
use vstd::prelude::*;
use vstd::string::*;

verus! {

#[derive(Clone, Debug, PartialEq, Eq)]
pub struct PackageInfo {
    pub name: String,
    pub path: String,
    pub is_system: bool,
    pub is_disabled: bool,
}

pub struct PackageModel {
    pub name: Seq<char>,
    pub path: Seq<char>,
    pub is_system: bool,
    pub is_disabled: bool,
}

impl View for PackageInfo {
    type V = PackageModel;

    open spec fn view(&self) -> PackageModel {
        PackageModel {
            name: self.name@,
            path: self.path@,
            is_system: self.is_system,
            is_disabled: self.is_disabled,
        }
    }
}

pub open spec fn package_models(list: Seq<PackageInfo>) -> Seq<PackageModel> {
    Seq::new(list.len(), |i: int| list[i]@)
}

/// What follows the label of a line of the package list, if the line
/// begins with it.
pub open spec fn record_in(line: Seq<char>) -> Option<Seq<char>> {
    if "package:"@.is_prefix_of(line) {
        Some(line.skip("package:"@.len() as int))
    } else {
        None
    }
}

/// The index of the last `=` in `record`.
pub open spec fn last_equals(record: Seq<char>) -> Option<int>
    decreases record.len(),
{
    if record.len() == 0 {
        None
    } else if record.last() == '=' {
        Some(record.len() - 1)
    } else {
        last_equals(record.drop_last())
    }
}

/// Whether a path lies in one of the places of preinstalled packages.
pub open spec fn is_system_path(path: Seq<char>) -> bool {
    ||| "/system"@.is_prefix_of(path)
    ||| "/product"@.is_prefix_of(path)
    ||| "/vendor"@.is_prefix_of(path)
    ||| "/apex"@.is_prefix_of(path)
}

/// Whether the line with the index `i` of a package list names the
/// package `name`: what follows its label is the name, with white space
/// around it.
pub open spec fn names_at(list_lines: Seq<Seq<char>>, name: Seq<char>, i: int) -> bool {
    &&& 0 <= i < list_lines.len()
    &&& record_in(list_lines[i]) is Some
    &&& trimmed(record_in(list_lines[i])->0) == name
}

/// The names of the packages that the lines of a package list name.
pub open spec fn names_in(list_lines: Seq<Seq<char>>) -> Set<Seq<char>> {
    Set::new(|name: Seq<char>| exists|i: int| names_at(list_lines, name, i))
}

/// The package that a line of the package list with paths names: the
/// path before the last `=` of its record, the name after it.
pub open spec fn package_in(line: Seq<char>, disabled: Set<Seq<char>>) -> Option<PackageModel> {
    match record_in(line) {
        Some(record) => match last_equals(record) {
            Some(at) => Some(
                PackageModel {
                    name: trimmed(record.skip(at + 1)),
                    path: trimmed(record.take(at)),
                    is_system: is_system_path(trimmed(record.take(at))),
                    is_disabled: disabled.contains(trimmed(record.skip(at + 1))),
                },
            ),
            None => None,
        },
        None => None,
    }
}

/// The packages that the lines of a package list name, in the order of
/// the list.
pub open spec fn packages_in(list_lines: Seq<Seq<char>>, disabled: Set<Seq<char>>) -> Seq<
    PackageModel,
>
    decreases list_lines.len(),
{
    if list_lines.len() == 0 {
        Seq::empty()
    } else {
        match package_in(list_lines.last(), disabled) {
            Some(package) => packages_in(list_lines.drop_last(), disabled).push(package),
            None => packages_in(list_lines.drop_last(), disabled),
        }
    }
}

pub open spec fn names_of(list: Seq<PackageModel>) -> Seq<Seq<char>> {
    Seq::new(list.len(), |i: int| list[i].name)
}

fn record_of(line: &str) -> (record: Option<String>)
    ensures
        crate::text::text_of(record) == record_in(line@),
{
    if starts_with(line, "package:") {
        proof {
            reveal_strlit("package:");
        }
        Some(crate::text::tail(line, 8))
    } else {
        None
    }
}

fn find_last_equals(chars: &Vec<char>) -> (at: Option<usize>)
    ensures
        match at {
            Some(i) => last_equals(chars@) == Some(i as int) && i < chars@.len(),
            None => last_equals(chars@) is None,
        },
{
    let mut i: usize = chars.len();
    assert(chars@.take(i as int) =~= chars@);
    while i > 0
        invariant
            i <= chars@.len(),
            last_equals(chars@) == last_equals(chars@.take(i as int)),
        decreases i,
    {
        assert(chars@.take(i as int).drop_last() =~= chars@.take(i - 1));
        if chars[i - 1] == '=' {
            return Some(i - 1);
        }
        i = i - 1;
    }
    None
}

fn is_system(path: &str) -> (system: bool)
    ensures
        system == is_system_path(path@),
{
    starts_with(path, "/system") || starts_with(path, "/product") || starts_with(path, "/vendor")
        || starts_with(path, "/apex")
}

spec fn held_at(names: Seq<String>, name: Seq<char>, k: int) -> bool {
    0 <= k < names.len() && names[k]@ == name
}

spec fn held(names: Seq<String>, name: Seq<char>) -> bool {
    exists|k: int| held_at(names, name, k)
}

/// The names of the disabled packages, from the list of disabled
/// packages.
fn disabled_names(disabled: &str) -> (names: Vec<String>)
    ensures
        forall|name: Seq<char>|
            #![trigger names_in(lines_of(disabled@)).contains(name)]
            #![trigger held(names@, name)]
            names_in(lines_of(disabled@)).contains(name) <==> held(names@, name),
{
    let all = lines(disabled);
    let mut names: Vec<String> = Vec::new();
    let mut i: usize = 0;
    while i < all.len()
        invariant
            i <= all@.len(),
            texts(all@) == lines_of(disabled@),
            forall|name: Seq<char>|
                #![trigger names_in(texts(all@).take(i as int)).contains(name)]
                #![trigger held(names@, name)]
                names_in(texts(all@).take(i as int)).contains(name) <==> held(names@, name),
        decreases all@.len() - i,
    {
        let line = all[i].as_str();
        let ghost upto = texts(all@).take(i + 1);
        let ghost sofar = texts(all@).take(i as int);
        let ghost before = names@;
        match record_of(line) {
            Some(record) => {
                names.push(trim(record.as_str()));
            },
            None => {},
        }
        assert forall|wanted: Seq<char>| names_in(upto).contains(wanted) <==> held(
            names@,
            wanted,
        ) by {
            if names_in(upto).contains(wanted) {
                let j = choose|j: int| names_at(upto, wanted, j);
                if j < i {
                    assert(names_at(sofar, wanted, j));
                    assert(names_in(sofar).contains(wanted));
                    let k = choose|k: int| held_at(before, wanted, k);
                    assert(held_at(names@, wanted, k));
                } else {
                    assert(held_at(names@, wanted, before.len() as int));
                }
            }
            if held(names@, wanted) {
                let k = choose|k: int| held_at(names@, wanted, k);
                if k < before.len() {
                    assert(held_at(before, wanted, k));
                    assert(names_in(sofar).contains(wanted));
                    let j = choose|j: int| names_at(sofar, wanted, j);
                    assert(names_at(upto, wanted, j));
                } else {
                    assert(names_at(upto, wanted, i as int));
                }
            }
        }
        i = i + 1;
    }
    assert(texts(all@).take(i as int) =~= texts(all@));
    names
}

fn holds_name(names: &Vec<String>, name: &str) -> (found: bool)
    ensures
        found == held(names@, name@),
{
    let mut i: usize = 0;
    while i < names.len()
        invariant
            i <= names@.len(),
            forall|k: int| 0 <= k < i ==> !held_at(names@, name@, k),
        decreases names@.len() - i,
    {
        if same_text(names[i].as_str(), name) {
            assert(held_at(names@, name@, i as int));
            return true;
        }
        i = i + 1;
    }
    false
}

/// Reads the package list with paths, marking the packages that the
/// list of disabled packages names, in the order of the list.
pub fn parse_packages(all: &str, disabled: &str) -> (list: Vec<PackageInfo>)
    ensures
        package_models(list@) == packages_in(lines_of(all@), names_in(lines_of(disabled@))),
{
    let names = disabled_names(disabled);
    let ghost off = names_in(lines_of(disabled@));
    let rows = lines(all);
    let mut list: Vec<PackageInfo> = Vec::new();
    let mut i: usize = 0;
    while i < rows.len()
        invariant
            i <= rows@.len(),
            off == names_in(lines_of(disabled@)),
            forall|name: Seq<char>|
                #![trigger off.contains(name)]
                #![trigger held(names@, name)]
                off.contains(name) <==> held(names@, name),
            package_models(list@) == packages_in(texts(rows@).take(i as int), off),
        decreases rows@.len() - i,
    {
        let line = rows[i].as_str();
        let ghost upto = texts(rows@).take(i + 1);
        assert(upto.drop_last() =~= texts(rows@).take(i as int));
        match record_of(line) {
            Some(record) => {
                let chars = chars_of(record.as_str());
                match find_last_equals(&chars) {
                    Some(at) => {
                        let total = chars.len();
                        let path_text = string_of(&chars, 0, at);
                        let name_text = string_of(&chars, at + 1, total);
                        let name = trim(name_text.as_str());
                        let path = trim(path_text.as_str());
                        let is_system = is_system(path.as_str());
                        let is_disabled = holds_name(&names, name.as_str());
                        let package = PackageInfo { name, path, is_system, is_disabled };
                        list.push(package);
                    },
                    None => {},
                }
            },
            None => {},
        }
        i = i + 1;
    }
    assert(texts(rows@).take(i as int) =~= texts(rows@));
    list
}

/// The installed packages, sorted by name: read from the package list
/// with paths and the list of disabled packages. Packages of the same
/// name keep the order of the list.
pub fn get_installed_packages(all: &str, disabled: &str) -> (sorted: Vec<PackageInfo>)
    ensures
        ({
            let listed = packages_in(lines_of(all@), names_in(lines_of(disabled@)));
            exists|order: Seq<usize>|
                {
                    &&& is_arrangement(order, listed.len() as int)
                    &&& is_stably_sorted(order, names_of(listed), false)
                    &&& package_models(sorted@) == Seq::new(
                        listed.len(),
                        |k: int| listed[order[k] as int],
                    )
                }
        }),
{
    let list = parse_packages(all, disabled);
    let ghost listed = package_models(list@);
    let mut keys: Vec<Vec<char>> = Vec::new();
    let mut i: usize = 0;
    while i < list.len()
        invariant
            i <= list@.len(),
            keys@.len() == i,
            forall|k: int| 0 <= k < i ==> (#[trigger] keys@[k])@ == list@[k].name@,
        decreases list@.len() - i,
    {
        keys.push(chars_of(list[i].name.as_str()));
        i = i + 1;
    }
    assert(keys_of(keys@) =~= names_of(listed));
    let order = sort_order(&keys, false);
    let mut sorted: Vec<PackageInfo> = Vec::new();
    let mut k: usize = 0;
    while k < order.len()
        invariant
            k <= order@.len() == list@.len(),
            is_arrangement(order@, list@.len() as int),
            sorted@.len() == k,
            forall|j: int| 0 <= j < k ==> (#[trigger] sorted@[j])@ == list@[order@[j] as int]@,
        decreases order@.len() - k,
    {
        let item = &list[order[k]];
        sorted.push(
            PackageInfo {
                name: item.name.clone(),
                path: item.path.clone(),
                is_system: item.is_system,
                is_disabled: item.is_disabled,
            },
        );
        k = k + 1;
    }
    sorted
}

/// The arguments of a command for a device: the device first, unless it
/// is not named.
pub open spec fn for_device(device: Seq<char>, args: Seq<Seq<char>>) -> Seq<Seq<char>> {
    if device.len() > 0 {
        seq!["-s"@, device] + args
    } else {
        args
    }
}

fn run_adb(device: &str, args: Vec<String>) -> (full: Vec<String>)
    ensures
        texts(full@) == for_device(device@, texts(args@)),
{
    if device.is_empty() {
        args
    } else {
        let mut args = args;
        let mut full: Vec<String> = Vec::new();
        full.push(owned("-s"));
        full.push(owned(device));
        full.append(&mut args);
        full
    }
}

pub fn list_packages_args(device: &str, disabled_only: bool) -> (args: Vec<String>)
    ensures
        texts(args@) == for_device(
            device@,
            seq![
                "shell"@,
                "pm"@,
                "list"@,
                "packages"@,
                if disabled_only {
                    "-d"@
                } else {
                    "-f"@
                },
            ],
        ),
{
    let mut args: Vec<String> = Vec::new();
    args.push(owned("shell"));
    args.push(owned("pm"));
    args.push(owned("list"));
    args.push(owned("packages"));
    args.push(
        if disabled_only {
            owned("-d")
        } else {
            owned("-f")
        },
    );
    run_adb(device, args)
}

pub fn uninstall_package(device: &str, package: &str) -> (args: Vec<String>)
    ensures
        texts(args@) == for_device(device@, seq!["uninstall"@, package@]),
{
    let mut args: Vec<String> = Vec::new();
    args.push(owned("uninstall"));
    args.push(owned(package));
    run_adb(device, args)
}

pub fn enable_package(device: &str, package: &str) -> (args: Vec<String>)
    ensures
        texts(args@) == for_device(device@, seq!["shell"@, "pm"@, "enable"@, package@]),
{
    let mut args: Vec<String> = Vec::new();
    args.push(owned("shell"));
    args.push(owned("pm"));
    args.push(owned("enable"));
    args.push(owned(package));
    run_adb(device, args)
}

pub fn disable_package(device: &str, package: &str) -> (args: Vec<String>)
    ensures
        texts(args@) == for_device(
            device@,
            seq!["shell"@, "pm"@, "disable-user"@, "--user"@, "0"@, package@],
        ),
{
    let mut args: Vec<String> = Vec::new();
    args.push(owned("shell"));
    args.push(owned("pm"));
    args.push(owned("disable-user"));
    args.push(owned("--user"));
    args.push(owned("0"));
    args.push(owned(package));
    run_adb(device, args)
}

pub fn clear_package(device: &str, package: &str) -> (args: Vec<String>)
    ensures
        texts(args@) == for_device(device@, seq!["shell"@, "pm"@, "clear"@, package@]),
{
    let mut args: Vec<String> = Vec::new();
    args.push(owned("shell"));
    args.push(owned("pm"));
    args.push(owned("clear"));
    args.push(owned(package));
    run_adb(device, args)
}

pub fn install_package(device: &str, path: &str) -> (args: Vec<String>)
    ensures
        texts(args@) == for_device(device@, seq!["install"@, "-r"@, path@]),
{
    let mut args: Vec<String> = Vec::new();
    args.push(owned("install"));
    args.push(owned("-r"));
    args.push(owned(path));
    run_adb(device, args)
}

} // verus!
