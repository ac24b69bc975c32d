//! The rows of the store, as plain values.

use vstd::prelude::*;

use crate::text::lowercased;
use crate::text::to_lowercase;
use crate::time::Timestamp;

verus! {

/// The role column of a person.
#[derive(Debug, Clone, Copy, PartialEq, Eq, Structural)]
pub enum PersonRole {
    Admin,
    User,
}

impl PersonRole {
    /// The label the store uses for the role.
    pub open spec fn label(self) -> Seq<char> {
        match self {
            PersonRole::Admin => "admin"@,
            PersonRole::User => "user"@,
        }
    }

    /// The role as shown to people.
    pub open spec fn title(self) -> Seq<char> {
        match self {
            PersonRole::Admin => "Admin"@,
            PersonRole::User => "User"@,
        }
    }

    /// The label the store uses for the role.
    pub fn to_str(&self) -> (label: &'static str)
        ensures
            label@ == self.label(),
    {
        match self {
            PersonRole::Admin => "admin",
            PersonRole::User => "user",
        }
    }

    /// The role as shown to people.
    pub fn to_string(&self) -> (title: String)
        ensures
            title@ == self.title(),
    {
        match self {
            PersonRole::Admin => String::from_str("Admin"),
            PersonRole::User => String::from_str("User"),
        }
    }
}

/// The gender column of a person.
#[derive(Debug, Clone, Copy, PartialEq, Eq, Structural)]
pub enum Gender {
    Male,
    Female,
}

impl Gender {
    /// The label the store uses for the gender.
    pub open spec fn label(self) -> Seq<char> {
        match self {
            Gender::Male => "male"@,
            Gender::Female => "female"@,
        }
    }

    /// The gender as shown to people.
    pub open spec fn title(self) -> Seq<char> {
        match self {
            Gender::Male => "Male"@,
            Gender::Female => "Female"@,
        }
    }

    /// The gender a lowercase label stands for. Anything but `female` reads
    /// as `Male`.
    pub open spec fn of_label(label: Seq<char>) -> Gender {
        if label == "female"@ {
            Gender::Female
        } else {
            Gender::Male
        }
    }

    /// The label the store uses for the gender.
    pub fn to_str(&self) -> (label: &'static str)
        ensures
            label@ == self.label(),
    {
        match self {
            Gender::Male => "male",
            Gender::Female => "female",
        }
    }

    /// The gender as shown to people.
    pub fn to_string(&self) -> (title: String)
        ensures
            title@ == self.title(),
    {
        match self {
            Gender::Male => String::from_str("Male"),
            Gender::Female => String::from_str("Female"),
        }
    }

    /// Reads a label that is already in lowercase.
    pub fn from_lowercase(label: &str) -> (gender: Gender)
        ensures
            gender == Gender::of_label(label@),
    {
        let female = String::from_str("female");
        let given = String::from_str(label);
        if given == female {
            Gender::Female
        } else {
            Gender::Male
        }
    }
}

impl From<String> for Gender {
    /// Reads a gender whatever the case of its letters.
    fn from(string: String) -> (gender: Gender) {
        let lower = to_lowercase(string.as_str());
        Gender::from_lowercase(lower.as_str())
    }
}

impl vstd::std_specs::convert::FromSpecImpl<String> for Gender {
    open spec fn obeys_from_spec() -> bool {
        true
    }

    open spec fn from_spec(string: String) -> Gender {
        Gender::of_label(lowercased(string@))
    }
}

/// A row of `posts`.
#[derive(Debug, Clone)]
pub struct Post {
    pub id: u128,
    pub title: String,
    pub description: String,
    pub created_at: Option<Timestamp>,
    pub updated_at: Option<Timestamp>,
}

/// A row of `emails`.
#[derive(Debug, Clone)]
pub struct Email {
    pub id: u128,
    pub owner_id: u128,
    pub address: String,
    pub is_primary: bool,
    pub is_verified: bool,
    pub is_private: bool,
    pub updated_at: Option<Timestamp>,
}

/// A row of `people`, with the emails of the person where they were fetched.
#[derive(Debug, Clone)]
pub struct Person {
    pub id: u128,
    pub username: String,
    pub firstname: String,
    pub lastname: String,
    pub password: String,
    pub role: PersonRole,
    pub birthdate: Timestamp,
    pub gender: Gender,
    pub biography: Option<String>,
    pub is_profile_private: bool,
    pub created_at: Option<Timestamp>,
    pub updated_at: Option<Timestamp>,
    pub emails: Vec<Email>,
}

/// A person in the role of a user.
#[derive(Debug, Clone)]
pub struct User {
    pub id: u128,
    pub username: String,
    pub firstname: String,
    pub lastname: String,
    pub password: String,
    pub birthdate: Timestamp,
    pub gender: Gender,
    pub biography: Option<String>,
    pub is_profile_private: bool,
    pub created_at: Option<Timestamp>,
    pub updated_at: Option<Timestamp>,
    pub emails: Vec<Email>,
}

impl From<Person> for User {
    /// Keeps every column of the person but the role.
    fn from(person: Person) -> (user: User) {
        User {
            id: person.id,
            username: person.username,
            firstname: person.firstname,
            lastname: person.lastname,
            password: person.password,
            birthdate: person.birthdate,
            gender: person.gender,
            biography: person.biography,
            is_profile_private: person.is_profile_private,
            emails: person.emails,
            created_at: person.created_at,
            updated_at: person.updated_at,
        }
    }
}

impl vstd::std_specs::convert::FromSpecImpl<Person> for User {
    open spec fn obeys_from_spec() -> bool {
        true
    }

    open spec fn from_spec(person: Person) -> User {
        User {
            id: person.id,
            username: person.username,
            firstname: person.firstname,
            lastname: person.lastname,
            password: person.password,
            birthdate: person.birthdate,
            gender: person.gender,
            biography: person.biography,
            is_profile_private: person.is_profile_private,
            emails: person.emails,
            created_at: person.created_at,
            updated_at: person.updated_at,
        }
    }
}

/// A person in the role of an admin.
#[derive(Debug, Clone)]
pub struct Admin {
    pub id: u128,
    pub username: String,
    pub firstname: String,
    pub lastname: String,
    pub password: String,
    pub birthdate: Timestamp,
    pub gender: Gender,
    pub created_at: Option<Timestamp>,
    pub updated_at: Option<Timestamp>,
    pub emails: Vec<Email>,
}

impl From<Person> for Admin {
    /// Keeps the columns of the person that an admin has.
    fn from(person: Person) -> (admin: Admin) {
        Admin {
            id: person.id,
            username: person.username,
            firstname: person.firstname,
            lastname: person.lastname,
            password: person.password,
            birthdate: person.birthdate,
            gender: person.gender,
            emails: person.emails,
            created_at: person.created_at,
            updated_at: person.updated_at,
        }
    }
}

impl vstd::std_specs::convert::FromSpecImpl<Person> for Admin {
    open spec fn obeys_from_spec() -> bool {
        true
    }

    open spec fn from_spec(person: Person) -> Admin {
        Admin {
            id: person.id,
            username: person.username,
            firstname: person.firstname,
            lastname: person.lastname,
            password: person.password,
            birthdate: person.birthdate,
            gender: person.gender,
            emails: person.emails,
            created_at: person.created_at,
            updated_at: person.updated_at,
        }
    }
}

} // verus!
