//! The table of the session store and the statements that work on it.

use vstd::prelude::*;

verus! {

/// Why the session store failed.
#[derive(Clone, Copy, Debug, PartialEq, Eq, Structural)]
pub enum LibSqlStoreError {
    /// The database refused the statement.
    LibSql,
    /// The record could not be encoded.
    Encode,
    /// The stored data could not be decoded.
    Decode,
}

/// Whether a character may stand in the name of a table: an ASCII letter or
/// digit, a hyphen or an underscore.
pub open spec fn is_name_char(c: char) -> bool {
    ||| 'a' <= c <= 'z'
    ||| 'A' <= c <= 'Z'
    ||| '0' <= c <= '9'
    ||| c == '-'
    ||| c == '_'
}

/// Whether a text can name a table: it is not empty and every character of
/// it may stand in a name.
pub open spec fn is_valid_name(name: Seq<char>) -> bool {
    name.len() > 0 && forall|i: int| 0 <= i < name.len() ==> is_name_char(#[trigger] name[i])
}

/// What a caller is told of a name that cannot name a table.
pub open spec fn invalid_name_text(name: Seq<char>) -> Seq<char> {
    "Invalid table name '"@ + name
        + "'. Table names must be alphanumeric and may contain hyphens or underscores."@
}

/// Whether a text can name a table.
pub fn is_valid_table_name(name: &str) -> (valid: bool)
    ensures
        valid == is_valid_name(name@),
{
    let length = name.unicode_len();
    if length == 0 {
        return false;
    }
    let mut index: usize = 0;
    while index < length
        invariant
            length == name@.len(),
            index <= length,
            forall|i: int| 0 <= i < index ==> is_name_char(#[trigger] name@[i]),
        decreases length - index,
    {
        let c = name.get_char(index);
        let allowed = ('a' <= c && c <= 'z') || ('A' <= c && c <= 'Z') || ('0' <= c && c <= '9')
            || c == '-' || c == '_';
        if !allowed {
            return false;
        }
        index += 1;
    }
    true
}

/// The session store as far as its statements go: the name of its table.
#[derive(Debug, Clone)]
pub struct LibSqlStore {
    table_name: String,
}

impl LibSqlStore {
    /// The name of the table.
    pub closed spec fn name(&self) -> Seq<char> {
        self.table_name@
    }

    /// The statement that creates the table unless it exists.
    pub open spec fn migrate_text(name: Seq<char>) -> Seq<char> {
        "create table if not exists "@ + name
            + " (id text primary key not null, data blob not null, expiry_date integer not null)"@
    }

    /// The statement that deletes the sessions that have expired.
    pub open spec fn delete_expired_text(name: Seq<char>) -> Seq<char> {
        "delete from "@ + name + " where expiry_date < unixepoch('now')"@
    }

    /// The statement that saves a session, over the one with the same key if
    /// there is one.
    pub open spec fn save_text(name: Seq<char>) -> Seq<char> {
        "insert into "@ + name
            + " (id, data, expiry_date) values (?, ?, ?) on conflict(id) do update set data = excluded.data, expiry_date = excluded.expiry_date"@
    }

    /// The statement that loads a session that has not expired.
    pub open spec fn load_text(name: Seq<char>) -> Seq<char> {
        "select data from "@ + name + " where id = ? and expiry_date > ?"@
    }

    /// The statement that deletes a session.
    pub open spec fn delete_text(name: Seq<char>) -> Seq<char> {
        "delete from "@ + name + " where id = ?"@
    }

    /// A store on the table `tower_sessions`.
    pub fn new() -> (store: Self)
        ensures
            store.name() == "tower_sessions"@,
    {
        LibSqlStore { table_name: "tower_sessions".to_string() }
    }

    /// The store on the table of the given name. A name that cannot name a
    /// table is refused with a message that quotes it.
    pub fn with_table_name(self, table_name: &str) -> (renamed: Result<Self, String>)
        ensures
            match renamed {
                Ok(store) => is_valid_name(table_name@) && store.name() == table_name@,
                Err(message) => !is_valid_name(table_name@) && message@ == invalid_name_text(
                    table_name@,
                ),
            },
    {
        if !is_valid_table_name(table_name) {
            let mut message = "Invalid table name '".to_string();
            message.append(table_name);
            message.append(
                "'. Table names must be alphanumeric and may contain hyphens or underscores.",
            );
            return Err(message);
        }
        Ok(LibSqlStore { table_name: table_name.to_string() })
    }

    /// The name of the table.
    pub fn table_name(&self) -> (name: &str)
        ensures
            name@ == self.name(),
    {
        self.table_name.as_str()
    }

    /// The statement that creates the table unless it exists.
    pub fn migrate(&self) -> (query: String)
        ensures
            query@ == LibSqlStore::migrate_text(self.name()),
    {
        let mut query = "create table if not exists ".to_string();
        query.append(self.table_name.as_str());
        query.append(
            " (id text primary key not null, data blob not null, expiry_date integer not null)",
        );
        query
    }

    /// The statement that deletes the sessions that have expired.
    pub fn delete_expired(&self) -> (query: String)
        ensures
            query@ == LibSqlStore::delete_expired_text(self.name()),
    {
        let mut query = "delete from ".to_string();
        query.append(self.table_name.as_str());
        query.append(" where expiry_date < unixepoch('now')");
        query
    }

    /// The statement that saves a session.
    pub fn save(&self) -> (query: String)
        ensures
            query@ == LibSqlStore::save_text(self.name()),
    {
        let mut query = "insert into ".to_string();
        query.append(self.table_name.as_str());
        query.append(
            " (id, data, expiry_date) values (?, ?, ?) on conflict(id) do update set data = excluded.data, expiry_date = excluded.expiry_date",
        );
        query
    }

    /// The statement that loads a session.
    pub fn load(&self) -> (query: String)
        ensures
            query@ == LibSqlStore::load_text(self.name()),
    {
        let mut query = "select data from ".to_string();
        query.append(self.table_name.as_str());
        query.append(" where id = ? and expiry_date > ?");
        query
    }

    /// The statement that deletes a session.
    pub fn delete(&self) -> (query: String)
        ensures
            query@ == LibSqlStore::delete_text(self.name()),
    {
        let mut query = "delete from ".to_string();
        query.append(self.table_name.as_str());
        query.append(" where id = ?");
        query
    }
}

impl LibSqlStoreError {
    /// The word under which the failure is reported.
    pub fn label(&self) -> (word: String)
        ensures
            word@ == match *self {
                LibSqlStoreError::LibSql => "libsql"@,
                LibSqlStoreError::Encode => "encode"@,
                LibSqlStoreError::Decode => "decode"@,
            },
    {
        match self {
            LibSqlStoreError::LibSql => "libsql".to_string(),
            LibSqlStoreError::Encode => "encode".to_string(),
            LibSqlStoreError::Decode => "decode".to_string(),
        }
    }
}

} // verus!
