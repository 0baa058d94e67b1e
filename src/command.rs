use vstd::prelude::*;

use crate::record::Record;
use crate::store::{entries_of, has_secret, is_first_match, with_secret, without_secret, Collection};

verus! {

/// The one action that an invocation performs on the store.
pub enum Command {
    /// Show every record.
    ListAll,
    /// Append this record.
    Insert(Record),
    /// An insert was asked for without both of its values.
    IncompleteInsert,
    /// Remove every record with this secret.
    Delete(String),
    /// Look up the first record with this secret.
    Find(String),
    /// No action was asked for.
    Nothing,
}

/// Picks the action from the command-line choices. When several are set,
/// listing wins over inserting, inserting over deleting, and deleting over
/// finding.
pub fn select_command(
    print_data: bool,
    new_pass: bool,
    pass: Option<String>,
    pass_c: Option<String>,
    delete_pass: Option<String>,
    find_pass: Option<String>,
) -> (c: Command)
    ensures
        if print_data {
            c is ListAll
        } else if new_pass {
            if pass is Some && pass_c is Some {
                c is Insert && c->Insert_0@ == (pass->Some_0@, pass_c->Some_0@)
            } else {
                c is IncompleteInsert
            }
        } else if delete_pass is Some {
            c is Delete && c->Delete_0@ == delete_pass->Some_0@
        } else if find_pass is Some {
            c is Find && c->Find_0@ == find_pass->Some_0@
        } else {
            c is Nothing
        },
{
    if print_data {
        Command::ListAll
    } else if new_pass {
        match (pass, pass_c) {
            (Some(secret), Some(confirmation)) => Command::Insert(Record::new(secret, confirmation)),
            _ => Command::IncompleteInsert,
        }
    } else if let Some(key) = delete_pass {
        Command::Delete(key)
    } else if let Some(key) = find_pass {
        Command::Find(key)
    } else {
        Command::Nothing
    }
}

/// True of the actions after which the collection must be written back.
pub fn changes_store(command: &Command) -> (r: bool)
    ensures
        r == (command is Insert || command is Delete),
{
    match command {
        Command::Insert(_) => true,
        Command::Delete(_) => true,
        _ => false,
    }
}

/// What an action produced, for the caller to show.
pub enum Outcome {
    /// Every record, in order.
    Listed(Vec<Record>),
    /// The record was appended.
    Inserted,
    /// This many records were removed.
    Deleted(usize),
    /// The first record with the asked secret, if any.
    Found(Option<Record>),
    /// Nothing was done: an insert lacked a value.
    IncompleteInsert,
    /// Nothing was done: no action was asked for.
    NoAction,
}

/// Applies `command` to the loaded collection. Only an insert or a delete
/// changes it.
pub fn execute(collection: &mut Collection, command: Command) -> (r: Outcome)
    ensures
        match command {
            Command::ListAll => {
                &&& final(collection)@ == old(collection)@
                &&& r is Listed
                &&& entries_of(r->Listed_0@) == old(collection)@
            },
            Command::Insert(record) => {
                &&& final(collection)@ == old(collection)@.push(record@)
                &&& r is Inserted
            },
            Command::IncompleteInsert => {
                &&& final(collection)@ == old(collection)@
                &&& r is IncompleteInsert
            },
            Command::Delete(key) => {
                &&& final(collection)@ == without_secret(old(collection)@, key@)
                &&& r is Deleted
                &&& r->Deleted_0 == with_secret(old(collection)@, key@).len()
            },
            Command::Find(key) => {
                &&& final(collection)@ == old(collection)@
                &&& r is Found
                &&& match r->Found_0 {
                    None => !has_secret(old(collection)@, key@),
                    Some(found) => exists|i: int|
                        is_first_match(old(collection)@, key@, i) && found@ == old(collection)@[i],
                }
            },
            Command::Nothing => {
                &&& final(collection)@ == old(collection)@
                &&& r is NoAction
            },
        },
{
    match command {
        Command::ListAll => Outcome::Listed(collection.list_all()),
        Command::Insert(record) => {
            collection.insert(record);
            Outcome::Inserted
        },
        Command::IncompleteInsert => Outcome::IncompleteInsert,
        Command::Delete(key) => Outcome::Deleted(collection.delete_by_secret(key.as_str())),
        Command::Find(key) => Outcome::Found(collection.find_by_secret(key.as_str())),
        Command::Nothing => Outcome::NoAction,
    }
}

} // verus!
