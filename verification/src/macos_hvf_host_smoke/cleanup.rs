//! What a host service leaves behind in its directories.

use vstd::prelude::*;
use crate::linux_kvm_recovery_smoke::soak_runner::RuntimeInventory;
use crate::model::ContainerTarget;
use crate::path::{join, joined};
use crate::service::SERVICE_SOCKET_NAME;
use crate::text::{append_decimal, decimal, text_eq};

verus! {

pub const BUNDLE_HANDOFF_DIRECTORY: &'static str = "bundle-handoffs";

pub const CONSOLE_DIRECTORY: &'static str = "console";

pub const RECOVERY_DIRECTORY: &'static str = "recovery";

pub const SHARE_DIRECTORY: &'static str = "shares";

/// What a look into a directory came to.
#[derive(Debug)]
pub enum Listing {
    /// There is no such directory.
    Missing,
    /// It could not be read.
    Failed(String),
    /// It holds nothing.
    Empty,
    /// It holds something.
    Occupied,
}

/// An entry of the directory of console files.
#[derive(Debug)]
pub struct ConsoleEntry {
    pub path: String,
    pub plain_file: bool,
}

/// What a look for the console files came to.
#[derive(Debug)]
pub enum Consoles {
    /// There is no such directory.
    Missing,
    /// It could not be read.
    Failed(String),
    /// One of its entries could not be read.
    EntryFailed(String),
    /// The entry at a path could not be looked at.
    InspectionFailed(String, String),
    Entries(Vec<ConsoleEntry>),
}

/// What a look for a path came to.
#[derive(Debug)]
pub enum Lookup {
    Present,
    Missing,
    Failed(String),
}

/// The failure to do something with a path.
pub open spec fn path_message(words: Seq<char>, path: Seq<char>, cause: Seq<char>) -> Seq<char> {
    words + path + ": "@ + cause
}

fn path_failure(words: &str, path: &str, cause: &str) -> (message: String)
    ensures
        message@ == path_message(words@, path@, cause@),
{
    let mut message = words.to_owned();
    message.append(path);
    message.append(": ");
    message.append(cause);
    message
}

/// Why a directory does not tell whether it is empty, if it does not.
pub open spec fn listing_fault(path: Seq<char>, listing: Listing) -> Option<Seq<char>> {
    match listing {
        Listing::Failed(cause) => Some(path_message("failed to enumerate "@, path, cause@)),
        _ => None,
    }
}

/// Whether a directory holds nothing. One that is not there holds nothing.
pub fn directory_is_empty(path: &str, listing: &Listing) -> (result: Result<bool, String>)
    ensures
        match result {
            Ok(empty) => listing_fault(path@, *listing) is None && empty == !(listing is Occupied),
            Err(message) => listing_fault(path@, *listing) == Some(message@),
        },
{
    match listing {
        Listing::Failed(cause) => Err(path_failure("failed to enumerate ", path, cause)),
        Listing::Occupied => Ok(false),
        _ => Ok(true),
    }
}

/// The paths of the plain files among entries.
pub open spec fn entry_paths(entries: Seq<ConsoleEntry>) -> Set<Seq<char>>
    decreases entries.len(),
{
    if entries.len() == 0 {
        Set::empty()
    } else if entries.last().plain_file {
        entry_paths(entries.drop_last()).insert(entries.last().path@)
    } else {
        entry_paths(entries.drop_last())
    }
}

/// The paths of the console files that were found.
pub open spec fn console_paths(consoles: Consoles) -> Set<Seq<char>> {
    match consoles {
        Consoles::Entries(entries) => entry_paths(entries@),
        _ => Set::empty(),
    }
}

/// A number of files, as far as a report can say it.
pub open spec fn reported_files(count: nat) -> u32 {
    if count <= u32::MAX {
        count as u32
    } else {
        u32::MAX
    }
}

/// How many console files there are, as far as a report can say.
pub open spec fn console_count(consoles: Consoles) -> u32 {
    reported_files(console_paths(consoles).len())
}

/// How many console files there are that were not there before, as far as a report
/// can say.
pub open spec fn created_count(before: Consoles, after: Consoles) -> u32 {
    reported_files(console_paths(after).difference(console_paths(before)).len())
}

proof fn entry_paths_are_finite(entries: Seq<ConsoleEntry>)
    ensures
        entry_paths(entries).finite(),
    decreases entries.len(),
{
    if entries.len() > 0 {
        entry_paths_are_finite(entries.drop_last());
    }
}

/// Whether one of the first entries is a plain file with this path.
fn holds_path(entries: &Vec<ConsoleEntry>, end: usize, path: &str) -> (found: bool)
    requires
        end <= entries@.len(),
    ensures
        found == entry_paths(entries@.take(end as int)).contains(path@),
{
    let mut found = false;
    let mut next: usize = 0;
    while next < end
        invariant
            next <= end <= entries@.len(),
            found == entry_paths(entries@.take(next as int)).contains(path@),
        decreases end - next,
    {
        proof {
            assert(entries@.take(next + 1).drop_last() =~= entries@.take(next as int));
        }
        if entries[next].plain_file && text_eq(&entries[next].path, path) {
            found = true;
        }
        next = next + 1;
    }
    found
}

/// How many different plain files there are among entries that are not among
/// others.
fn count_paths(entries: &Vec<ConsoleEntry>, others: &Vec<ConsoleEntry>) -> (count: u32)
    ensures
        count == reported_files(entry_paths(entries@).difference(entry_paths(others@)).len()),
{
    let ghost known = entry_paths(others@);
    let mut count: u32 = 0;
    let mut next: usize = 0;
    assert(entries@.take(0) =~= Seq::empty());
    assert(entry_paths(entries@.take(0)).difference(known) =~= Set::empty());
    assert(others@.take(others@.len() as int) =~= others@);
    while next < entries.len()
        invariant
            next <= entries@.len(),
            known == entry_paths(others@),
            others@.take(others@.len() as int) == others@,
            count == reported_files(
                entry_paths(entries@.take(next as int)).difference(known).len(),
            ),
        decreases entries@.len() - next,
    {
        let ghost before = entry_paths(entries@.take(next as int));
        let ghost path = entries@[next as int].path@;
        proof {
            entry_paths_are_finite(entries@.take(next as int));
            assert(entries@.take(next + 1).drop_last() =~= entries@.take(next as int));
        }
        let entry = &entries[next];
        if entry.plain_file && !holds_path(others, others.len(), &entry.path) && !holds_path(
            entries,
            next,
            &entry.path,
        ) {
            assert(before.insert(path).difference(known) =~= before.difference(known).insert(path));
            if count < u32::MAX {
                count = count + 1;
            }
        } else {
            assert(entry_paths(entries@.take(next + 1)).difference(known) =~= before.difference(
                known,
            ));
        }
        next = next + 1;
    }
    assert(entries@.take(entries@.len() as int) =~= entries@);
    count
}

/// How many console files there are that were not there before, as far as a report
/// can say.
pub fn count_created(before: &Consoles, after: &Consoles) -> (count: u32)
    ensures
        count == created_count(*before, *after),
{
    let none: Vec<ConsoleEntry> = Vec::new();
    let known = match before {
        Consoles::Entries(entries) => entries,
        _ => &none,
    };
    match after {
        Consoles::Entries(entries) => count_paths(entries, known),
        _ => {
            assert(console_paths(*after).difference(console_paths(*before)) =~= Set::empty());
            0
        },
    }
}

fn count_consoles(consoles: &Consoles) -> (count: u32)
    ensures
        count == console_count(*consoles),
{
    assert(console_paths(*consoles).difference(Set::empty()) =~= console_paths(*consoles));
    count_created(&Consoles::Missing, consoles)
}

/// Why the console files are not known, if they are not.
pub open spec fn console_fault(path: Seq<char>, consoles: Consoles) -> Option<Seq<char>> {
    match consoles {
        Consoles::Failed(cause) => Some(path_message("failed to enumerate "@, path, cause@)),
        Consoles::EntryFailed(cause) => Some(
            path_message("failed to inspect entry below "@, path, cause@),
        ),
        Consoles::InspectionFailed(entry, cause) => Some(
            path_message("failed to inspect "@, entry@, cause@),
        ),
        _ => None,
    }
}

/// Why there is no inventory of a runtime directory, if there is none.
pub open spec fn inventory_fault(
    runtime_root: Seq<char>,
    handoffs: Listing,
    shares: Listing,
    reports: Listing,
    consoles: Consoles,
) -> Option<Seq<char>> {
    let first = listing_fault(joined(runtime_root, BUNDLE_HANDOFF_DIRECTORY@), handoffs);
    let second = listing_fault(joined(runtime_root, SHARE_DIRECTORY@), shares);
    let third = listing_fault(joined(runtime_root, RECOVERY_DIRECTORY@), reports);
    if first is Some {
        first
    } else if second is Some {
        second
    } else if third is Some {
        third
    } else {
        console_fault(joined(runtime_root, CONSOLE_DIRECTORY@), consoles)
    }
}

/// Makes the inventory of a runtime directory.
pub fn inventory(
    runtime_root: &str,
    handoffs: &Listing,
    shares: &Listing,
    reports: &Listing,
    consoles: &Consoles,
) -> (result: Result<RuntimeInventory, String>)
    ensures
        match result {
            Ok(inventory) => {
                &&& inventory_fault(
                    runtime_root@,
                    *handoffs,
                    *shares,
                    *reports,
                    *consoles,
                ) is None
                &&& inventory.bundle_handoffs_clean == !(handoffs is Occupied)
                &&& inventory.runtime_shares_clean == !(shares is Occupied)
                &&& inventory.recovery_reports_clean == !(reports is Occupied)
                &&& inventory.console_files == console_count(*consoles)
            },
            Err(message) => inventory_fault(
                runtime_root@,
                *handoffs,
                *shares,
                *reports,
                *consoles,
            ) == Some(message@),
        },
{
    let path = join(runtime_root, BUNDLE_HANDOFF_DIRECTORY);
    let bundle_handoffs_clean = match directory_is_empty(&path, handoffs) {
        Ok(empty) => empty,
        Err(message) => return Err(message),
    };
    let path = join(runtime_root, SHARE_DIRECTORY);
    let runtime_shares_clean = match directory_is_empty(&path, shares) {
        Ok(empty) => empty,
        Err(message) => return Err(message),
    };
    let path = join(runtime_root, RECOVERY_DIRECTORY);
    let recovery_reports_clean = match directory_is_empty(&path, reports) {
        Ok(empty) => empty,
        Err(message) => return Err(message),
    };
    let path = join(runtime_root, CONSOLE_DIRECTORY);
    match consoles {
        Consoles::Failed(cause) => {
            return Err(path_failure("failed to enumerate ", &path, cause));
        },
        Consoles::EntryFailed(cause) => {
            return Err(path_failure("failed to inspect entry below ", &path, cause));
        },
        Consoles::InspectionFailed(entry, cause) => {
            return Err(path_failure("failed to inspect ", entry, cause));
        },
        _ => {},
    }
    let console_files = count_consoles(consoles);
    Ok(
        RuntimeInventory {
            bundle_handoffs_clean,
            runtime_shares_clean,
            recovery_reports_clean,
            console_files,
        },
    )
}

/// Where the recovery report of a generation is kept.
pub fn recovery_report_path(runtime_root: &str, target: &ContainerTarget) -> (result: Result<
    String,
    String,
>)
    ensures
        match target.generation {
            Some(generation) => result matches Ok(path) && path@ == joined(
                joined(runtime_root@, RECOVERY_DIRECTORY@),
                target.id@ + "-"@ + decimal(generation as nat) + ".json"@,
            ),
            None => result matches Err(message) && message@
                == "recovery report lookup requires an exact generation"@,
        },
{
    match target.generation {
        Some(generation) => {
            let mut name = target.id.clone();
            name.append("-");
            append_decimal(&mut name, generation);
            name.append(".json");
            Ok(join(&join(runtime_root, RECOVERY_DIRECTORY), &name))
        },
        None => Err("recovery report lookup requires an exact generation".to_owned()),
    }
}

/// Whether a path names nothing, or why that is not known.
pub open spec fn absence(path: Seq<char>, lookup: Lookup) -> Result<bool, Seq<char>> {
    match lookup {
        Lookup::Present => Ok(false),
        Lookup::Missing => Ok(true),
        Lookup::Failed(cause) => Err(path_message("failed to inspect "@, path, cause@)),
    }
}

fn path_absent(path: &str, lookup: &Lookup) -> (result: Result<bool, String>)
    ensures
        match result {
            Ok(absent) => absence(path@, *lookup) == Ok::<bool, Seq<char>>(absent),
            Err(message) => absence(path@, *lookup) == Err::<bool, Seq<char>>(message@),
        },
{
    match lookup {
        Lookup::Present => Ok(false),
        Lookup::Missing => Ok(true),
        Lookup::Failed(cause) => Err(path_failure("failed to inspect ", path, cause)),
    }
}

/// Where the durable state of a container is kept.
pub open spec fn durable_path(service_root: Seq<char>, id: Seq<char>) -> Seq<char> {
    joined(joined(joined(service_root, "state"@), "containers"@), id)
}

/// Where the durable state of a container is kept.
pub fn durable_container_path(service_root: &str, target: &ContainerTarget) -> (path: String)
    ensures
        path@ == durable_path(service_root@, target.id@),
{
    join(&join(&join(service_root, "state"), "containers"), &target.id)
}

/// Whether nothing is left of the durable state of a container.
pub fn durable_container_removed(
    service_root: &str,
    target: &ContainerTarget,
    lookup: &Lookup,
) -> (result: Result<bool, String>)
    ensures
        match result {
            Ok(absent) => absence(durable_path(service_root@, target.id@), *lookup) == Ok::<
                bool,
                Seq<char>,
            >(absent),
            Err(message) => absence(durable_path(service_root@, target.id@), *lookup) == Err::<
                bool,
                Seq<char>,
            >(message@),
        },
{
    path_absent(&durable_container_path(service_root, target), lookup)
}

/// Whether the socket of a service is gone.
pub fn socket_absent(service_root: &str, lookup: &Lookup) -> (result: Result<bool, String>)
    ensures
        match result {
            Ok(absent) => absence(joined(service_root@, SERVICE_SOCKET_NAME@), *lookup) == Ok::<
                bool,
                Seq<char>,
            >(absent),
            Err(message) => absence(joined(service_root@, SERVICE_SOCKET_NAME@), *lookup) == Err::<
                bool,
                Seq<char>,
            >(message@),
        },
{
    path_absent(&join(service_root, SERVICE_SOCKET_NAME), lookup)
}

/// The console files of a run are the plain files among its entries, each once.
pub proof fn console_files_are_plain_files(entries: Seq<ConsoleEntry>, path: Seq<char>)
    ensures
        entry_paths(entries).finite(),
        entry_paths(entries).len() <= entries.len(),
        entry_paths(entries).contains(path) <==> exists|i: int|
            0 <= i < entries.len() && (#[trigger] entries[i]).plain_file && entries[i].path@
                == path,
    decreases entries.len(),
{
    if entries.len() > 0 {
        let shorter = entries.drop_last();
        console_files_are_plain_files(shorter, path);
        assert(forall|i: int| 0 <= i < shorter.len() ==> #[trigger] shorter[i] == entries[i]);
        assert(entries[entries.len() - 1] == entries.last());
        if entry_paths(shorter).contains(path) {
            let i = choose|i: int|
                0 <= i < shorter.len() && (#[trigger] shorter[i]).plain_file && shorter[i].path@
                    == path;
            assert(entries[i] == shorter[i]);
        }
        if exists|i: int|
            0 <= i < entries.len() && (#[trigger] entries[i]).plain_file && entries[i].path@
                == path {
            let i = choose|i: int|
                0 <= i < entries.len() && (#[trigger] entries[i]).plain_file && entries[i].path@
                    == path;
            if i < shorter.len() {
                assert(shorter[i] == entries[i]);
            }
        }
    }
}

/// Files count as new only where they were not there before, so that a run that left
/// everything as it was has made none.
pub proof fn only_new_files_are_counted(before: Consoles, after: Consoles)
    requires
        console_paths(after).finite(),
    ensures
        created_count(after, after) == 0,
        created_count(before, after) <= console_count(after),
        console_paths(before).disjoint(console_paths(after)) ==> created_count(before, after)
            == console_count(after),
        console_paths(after).len() <= u32::MAX ==> console_count(after) == console_paths(
            after,
        ).len(),
{
    let found = console_paths(after);
    assert(found.difference(found) =~= Set::empty());
    let fresh = found.difference(console_paths(before));
    vstd::set_lib::lemma_len_subset(fresh, found);
    if console_paths(before).disjoint(found) {
        assert(fresh =~= found);
    }
}

/// An inventory is made only where all four directories could be read, and what could not
/// be read first is what is reported.
pub proof fn inventories_need_every_directory(
    runtime_root: Seq<char>,
    handoffs: Listing,
    shares: Listing,
    reports: Listing,
    consoles: Consoles,
)
    ensures
        inventory_fault(runtime_root, handoffs, shares, reports, consoles) is None ==> !(handoffs
            is Failed) && !(shares is Failed) && !(reports is Failed) && !(consoles is Failed)
            && !(consoles is EntryFailed) && !(consoles is InspectionFailed),
        !(handoffs is Failed) && !(shares is Failed) && !(reports is Failed) && !(consoles
            is Failed) && !(consoles is EntryFailed) && !(consoles is InspectionFailed)
            ==> inventory_fault(runtime_root, handoffs, shares, reports, consoles) is None,
        handoffs is Failed ==> inventory_fault(runtime_root, handoffs, shares, reports, consoles)
            == Some(
            "failed to enumerate "@ + joined(runtime_root, BUNDLE_HANDOFF_DIRECTORY@) + ": "@
                + handoffs->Failed_0@,
        ),
{
}

/// A path is gone only where it was looked for and missing; a look that failed tells
/// neither.
pub proof fn absence_is_seen(path: Seq<char>, lookup: Lookup)
    ensures
        absence(path, lookup) == Ok::<bool, Seq<char>>(true) <==> lookup is Missing,
        absence(path, lookup) == Ok::<bool, Seq<char>>(false) <==> lookup is Present,
        absence(path, lookup) is Err <==> lookup is Failed,
{
}

} // verus!
