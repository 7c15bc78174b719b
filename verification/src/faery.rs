//! The faery: a user of the service and the dross it holds.

use crate::dross::{decremented, holding_after, incremented, DrossError, DrossHolder, DrossResult};
use crate::repository::RepositoryItem;
use vstd::prelude::*;
use vstd::std_specs::convert::FromSpecImpl;

verus! {

/// A user of the service: a name, an address, a role and a holding of dross.
#[derive(Debug)]
pub struct Faery {
    pub id: Option<i64>,
    pub name: String,
    pub email: String,
    pub is_admin: bool,
    pub dross: u32,
}

/// What a client submits to have a faery created.
#[derive(Debug)]
pub struct CreateFaeryRequest {
    pub name: String,
    pub email: String,
}

impl Faery {
    /// A faery with the given name, address, role, holding and row.
    pub fn new(name: String, email: String, is_admin: bool, dross: u32, id: Option<i64>) -> (faery:
        Faery)
        ensures
            faery == (Faery { id, name, email, is_admin, dross }),
    {
        Faery { id, name, email, is_admin, dross }
    }

    /// The name of the faery.
    pub fn name(&self) -> (name: &str)
        ensures
            name@ == self.name@,
    {
        self.name.as_str()
    }

    /// The address of the faery.
    pub fn email(&self) -> (email: &str)
        ensures
            email@ == self.email@,
    {
        self.email.as_str()
    }

    /// Whether the faery is an administrator.
    pub fn is_admin(&self) -> (admin: bool)
        ensures
            admin == self.is_admin,
    {
        self.is_admin
    }

    /// The dross that the faery holds.
    pub fn dross(&self) -> (held: u32)
        ensures
            held == self.dross,
    {
        self.dross
    }
}

impl Clone for Faery {
    fn clone(&self) -> (copy: Self)
        ensures
            copy == *self,
    {
        Faery {
            id: self.id,
            name: self.name.clone(),
            email: self.email.clone(),
            is_admin: self.is_admin,
            dross: self.dross,
        }
    }
}

impl DrossHolder for Faery {
    open spec fn holding(&self) -> u32 {
        self.dross
    }

    fn increment_dross(&mut self, amount: u32) -> (change: DrossResult)
        ensures
            *final(self) == (Faery {
                dross: holding_after(old(self).dross, incremented(old(self).dross, amount)),
                ..*old(self)
            }),
    {
        if amount == 0 {
            return Err(DrossError::InvalidIncrement);
        }
        self.dross += amount;
        Ok(self.dross)
    }

    fn decrement_dross(&mut self, amount: u32) -> (change: DrossResult)
        ensures
            *final(self) == (Faery {
                dross: holding_after(old(self).dross, decremented(old(self).dross, amount)),
                ..*old(self)
            }),
    {
        if amount == 0 {
            Err(DrossError::InvalidDecrement)
        } else if amount > self.dross {
            Err(DrossError::NotEnoughDross)
        } else {
            self.dross -= amount;
            Ok(self.dross)
        }
    }

    fn dross(&self) -> (held: DrossResult) {
        Ok(self.dross)
    }
}

impl RepositoryItem for Faery {
    /// The address is hidden from everyone but an administrator.
    fn masked_columns(is_admin: bool) -> (columns: Vec<String>)
        ensures
            columns.deep_view() == if is_admin {
                Seq::<Seq<char>>::empty()
            } else {
                seq!["email"@]
            },
    {
        let mut columns: Vec<String> = Vec::new();
        if !is_admin {
            columns.push("email".to_string());
        }
        assert(columns.deep_view() =~= if is_admin {
            Seq::<Seq<char>>::empty()
        } else {
            seq!["email"@]
        });
        columns
    }

    /// Every column that is not hidden from an administrator: all of them.
    fn saved_columns() -> (columns: Vec<String>)
        ensures
            columns.deep_view() == seq!["id"@, "name"@, "is_admin"@, "email"@, "dross"@],
    {
        Faery::all_columns()
    }

    fn all_columns() -> (columns: Vec<String>)
        ensures
            columns.deep_view() == seq!["id"@, "name"@, "is_admin"@, "email"@, "dross"@],
    {
        let columns = vec![
            "id".to_string(),
            "name".to_string(),
            "is_admin".to_string(),
            "email".to_string(),
            "dross".to_string(),
        ];
        assert(columns.deep_view() =~= seq!["id"@, "name"@, "is_admin"@, "email"@, "dross"@]);
        columns
    }

    fn table_name() -> (name: String)
        ensures
            name@ == "faeries"@,
    {
        "faeries".to_string()
    }
}

impl From<CreateFaeryRequest> for Faery {
    /// A new faery is no administrator and holds nothing.
    fn from(request: CreateFaeryRequest) -> (faery: Faery) {
        Faery::new(request.name, request.email, false, 0, None)
    }
}

impl FromSpecImpl<CreateFaeryRequest> for Faery {
    open spec fn obeys_from_spec() -> bool {
        true
    }

    open spec fn from_spec(request: CreateFaeryRequest) -> Faery {
        Faery { id: None, name: request.name, email: request.email, is_admin: false, dross: 0 }
    }
}

} // verus!
