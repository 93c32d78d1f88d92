//! The record store's side: one collection of users keyed by an opaque
//! identifier, and the requests and decisions that keep it.
use vstd::prelude::*;

use crate::errors::{store_fault_text, StoreFault, UserError};
use crate::models::User;

verus! {

/// The provisioned read and write capacity of a table this library creates.
pub const TABLE_CAPACITY_UNITS: i64 = 5;

/// An attribute value of a stored item: a string, or any other kind.
#[derive(Debug, Clone)]
pub enum AttributeValue {
    S(String),
    Other,
}

/// The collection of users: its table and the name of its key attribute.
pub struct UserStore {
    pub table_name: String,
    pub key_attribute: String,
}

/// An unconditional write of one item.
#[derive(Debug, Clone)]
pub struct PutItemRequest {
    pub table_name: String,
    pub item: Vec<(String, AttributeValue)>,
}

/// A table keyed by one string partition key, with fixed capacity.
#[derive(Debug, Clone)]
pub struct CreateTableRequest {
    pub table_name: String,
    pub key_attribute: String,
    pub read_capacity_units: i64,
    pub write_capacity_units: i64,
}

/// How the table came to be there.
#[derive(Debug, Clone, Copy, PartialEq, Eq)]
pub enum TableStatus {
    AlreadyExisted,
    Created,
}

/// The next thing to do while making sure the table exists.
#[derive(Debug)]
pub enum TableStep {
    CreateTable(CreateTableRequest),
    Finished(Result<TableStatus, UserError>),
}

/// The email of a stored item: the string value of its first attribute
/// named `email`, if that is a string.
pub open spec fn item_email(item: Seq<(String, AttributeValue)>) -> Option<Seq<char>>
    decreases item.len(),
{
    if item.len() == 0 {
        None
    } else if item[0].0@ == "email"@ {
        match item[0].1 {
            AttributeValue::S(s) => Some(s@),
            AttributeValue::Other => None,
        }
    } else {
        item_email(item.subrange(1, item.len() as int))
    }
}

/// The emails of the items that have one, in order.
pub open spec fn scanned_emails(items: Seq<Vec<(String, AttributeValue)>>) -> Seq<Seq<char>>
    decreases items.len(),
{
    if items.len() == 0 {
        Seq::empty()
    } else {
        let rest = scanned_emails(items.drop_last());
        match item_email(items.last()@) {
            Some(e) => rest.push(e),
            None => rest,
        }
    }
}

/// Whether a listing of the store's tables calls for creating `table`.
pub open spec fn creates_table(listing: Seq<Seq<char>>, table: Seq<char>) -> bool {
    !listing.contains(table)
}

/// The tables that the store lists after a call that made sure `table`
/// exists and reported success: the table is added where it was created.
pub open spec fn listing_after_ensure(listing: Seq<Seq<char>>, table: Seq<char>) -> Seq<Seq<char>> {
    if creates_table(listing, table) {
        listing.push(table)
    } else {
        listing
    }
}

/// Making sure the table exists is idempotent: whatever the first call
/// found, a second call on the listing that the first left behind creates
/// nothing and (by `tables_listed`) reports success at once.
pub proof fn lemma_ensure_table_idempotent(listing: Seq<Seq<char>>, table: Seq<char>)
    ensures
        !creates_table(listing_after_ensure(listing, table), table),
        !creates_table(listing, table) ==> listing_after_ensure(listing, table) == listing,
{
    if creates_table(listing, table) {
        let after = listing.push(table);
        assert(after[after.len() - 1] == table);
    }
}

/// The emails of a list of users.
pub open spec fn user_emails(users: Seq<User>) -> Seq<Seq<char>> {
    users.map_values(|u: User| u.email@)
}

impl UserStore {
    /// The `users` collection, keyed by `id`.
    pub fn users() -> (r: UserStore)
        ensures
            r.table_name@ == "users"@,
            r.key_attribute@ == "id"@,
    {
        UserStore { table_name: String::from_str("users"), key_attribute: String::from_str("id") }
    }

    /// The write of the record of `user_id`: its key and its email. A
    /// record with the same key is replaced.
    pub fn save_user(&self, user_id: &str, email: &str) -> (r: PutItemRequest)
        ensures
            r.table_name@ == self.table_name@,
            r.item@.len() == 2,
            r.item@[0].0@ == self.key_attribute@,
            r.item@[0].1 matches AttributeValue::S(v) && v@ == user_id@,
            r.item@[1].0@ == "email"@,
            r.item@[1].1 matches AttributeValue::S(v) && v@ == email@,
    {
        let item = vec![
            (self.key_attribute.clone(), AttributeValue::S(user_id.to_owned())),
            (String::from_str("email"), AttributeValue::S(email.to_owned())),
        ];
        PutItemRequest { table_name: self.table_name.clone(), item }
    }

    /// The creation of this table, keyed by its key attribute.
    pub fn create_table_request(&self) -> (r: CreateTableRequest)
        ensures
            r.table_name@ == self.table_name@,
            r.key_attribute@ == self.key_attribute@,
            r.read_capacity_units == TABLE_CAPACITY_UNITS,
            r.write_capacity_units == TABLE_CAPACITY_UNITS,
    {
        CreateTableRequest {
            table_name: self.table_name.clone(),
            key_attribute: self.key_attribute.clone(),
            read_capacity_units: TABLE_CAPACITY_UNITS,
            write_capacity_units: TABLE_CAPACITY_UNITS,
        }
    }

    /// Decides on the listing of the store's tables: nothing to do where
    /// the table is listed, else create it.
    pub fn tables_listed(&self, reply: Result<Vec<String>, StoreFault>) -> (r: TableStep)
        ensures
            reply matches Err(f) ==> r matches TableStep::Finished(Err(UserError::Transport(m)))
                && m@ == store_fault_text(f),
            reply matches Ok(names) ==> (if !creates_table(names.deep_view(), self.table_name@) {
                r matches TableStep::Finished(Ok(TableStatus::AlreadyExisted))
            } else {
                r matches TableStep::CreateTable(q) && q.table_name@ == self.table_name@
                    && q.key_attribute@ == self.key_attribute@ && q.read_capacity_units
                    == TABLE_CAPACITY_UNITS && q.write_capacity_units == TABLE_CAPACITY_UNITS
            }),
    {
        match reply {
            Err(f) => TableStep::Finished(Err(UserError::Transport(f.text()))),
            Ok(names) => {
                if contains_name(&names, &self.table_name) {
                    TableStep::Finished(Ok(TableStatus::AlreadyExisted))
                } else {
                    TableStep::CreateTable(self.create_table_request())
                }
            },
        }
    }

    /// Decides on the reply to the creation of the table. A store that
    /// answers that the table exists already was raced by another creator:
    /// that is success too.
    pub fn table_created(&self, reply: Result<(), StoreFault>) -> (r: Result<TableStatus, UserError>)
        ensures
            reply is Ok ==> r == Ok::<TableStatus, UserError>(TableStatus::Created),
            reply matches Err(StoreFault::ResourceInUse) ==> r == Ok::<TableStatus, UserError>(
                TableStatus::AlreadyExisted,
            ),
            reply matches Err(StoreFault::Other(m)) ==> r matches Err(UserError::Transport(t))
                && t@ == m@,
    {
        match reply {
            Ok(()) => Ok(TableStatus::Created),
            Err(StoreFault::ResourceInUse) => Ok(TableStatus::AlreadyExisted),
            Err(StoreFault::Other(m)) => Err(UserError::Transport(m)),
        }
    }

    /// The users of one scanned page: each item with a string `email`.
    pub fn list_users(&self, reply: Result<Vec<Vec<(String, AttributeValue)>>, StoreFault>) -> (r:
        Result<Vec<User>, UserError>)
        ensures
            reply is Ok <==> r is Ok,
            reply matches Ok(items) ==> r matches Ok(users) && user_emails(users@) == scanned_emails(
                items@,
            ),
            reply matches Err(f) ==> r matches Err(UserError::Transport(m)) && m@
                == store_fault_text(f),
    {
        match reply {
            Ok(items) => Ok(users_of_items(&items)),
            Err(f) => Err(UserError::Transport(f.text())),
        }
    }
}

fn contains_name(names: &Vec<String>, name: &String) -> (r: bool)
    ensures
        r == names.deep_view().contains(name@),
{
    let mut i: usize = 0;
    while i < names.len()
        invariant
            i <= names@.len(),
            forall|j: int| 0 <= j < i ==> names@[j]@ != name@,
        decreases names@.len() - i,
    {
        if names[i] == *name {
            assert(names.deep_view()[i as int] == name@);
            return true;
        }
        i = i + 1;
    }
    proof {
        if names.deep_view().contains(name@) {
            let k = choose|k: int| 0 <= k < names.deep_view().len() && names.deep_view()[k] == name@;
            assert(names@[k]@ == name@);
        }
    }
    false
}

fn email_of_item(item: &Vec<(String, AttributeValue)>) -> (r: Option<String>)
    ensures
        r matches Some(e) ==> item_email(item@) == Some(e@),
        r is None ==> item_email(item@) is None,
{
    let key = String::from_str("email");
    let mut i: usize = 0;
    assert(item@.subrange(0, item@.len() as int) =~= item@);
    while i < item.len()
        invariant
            i <= item@.len(),
            key@ == "email"@,
            item_email(item@) == item_email(item@.subrange(i as int, item@.len() as int)),
        decreases item@.len() - i,
    {
        let ghost tail = item@.subrange(i as int, item@.len() as int);
        assert(tail.subrange(1, tail.len() as int) =~= item@.subrange(i + 1, item@.len() as int));
        if item[i].0 == key {
            return match &item[i].1 {
                AttributeValue::S(s) => Some(s.clone()),
                AttributeValue::Other => None,
            };
        }
        i = i + 1;
    }
    None
}

fn users_of_items(items: &Vec<Vec<(String, AttributeValue)>>) -> (r: Vec<User>)
    ensures
        user_emails(r@) == scanned_emails(items@),
{
    let mut users: Vec<User> = Vec::new();
    let mut i: usize = 0;
    while i < items.len()
        invariant
            i <= items@.len(),
            user_emails(users@) == scanned_emails(items@.subrange(0, i as int)),
        decreases items@.len() - i,
    {
        let ghost before = items@.subrange(0, i as int);
        let ghost after = items@.subrange(0, i + 1);
        assert(after.drop_last() =~= before);
        match email_of_item(&items[i]) {
            Some(email) => {
                let ghost old_users = users@;
                users.push(User { email });
                assert(user_emails(users@) =~= user_emails(old_users).push(users@.last().email@));
            },
            None => {},
        }
        i = i + 1;
    }
    assert(items@.subrange(0, i as int) =~= items@);
    users
}

} // verus!
