//! What is received and sent about users and admins.

use vstd::prelude::*;

use crate::dtos::email::EmailDto;
use crate::ids::format_uuid;
use crate::ids::uuid_text;
use crate::models::Admin;
use crate::models::User;
use crate::time::Timestamp;

verus! {

/// What is asked for when a user signs up.
#[derive(Debug, Default, Clone)]
pub struct CreateUserDto {
    pub firstname: String,
    pub lastname: String,
    pub username: String,
    pub email: String,
    pub birthdate: String,
    pub gender: String,
    pub is_profile_private: Option<bool>,
    pub password: String,
}

/// What is asked for when an admin is added.
#[derive(Debug, Default, Clone)]
pub struct CreateAdminDto {
    pub firstname: String,
    pub lastname: String,
    pub username: String,
    pub email: String,
    pub birthdate: String,
    pub gender: String,
    pub password: String,
}

/// The columns of a user to set; an absent one is left as it is.
#[derive(Debug, Default, Clone)]
pub struct UpdateUserDto {
    pub firstname: Option<String>,
    pub lastname: Option<String>,
    pub username: Option<String>,
    pub birthdate: Option<String>,
    pub gender: Option<String>,
    pub biography: Option<String>,
    pub is_profile_private: Option<bool>,
}

/// The columns of an admin to set; an absent one is left as it is.
#[derive(Debug, Default, Clone)]
pub struct UpdateAdminDto {
    pub firstname: Option<String>,
    pub lastname: Option<String>,
    pub username: Option<String>,
    pub birthdate: Option<String>,
    pub gender: Option<String>,
}

/// The request to change what a user shows of itself.
#[derive(Debug, Default, Clone)]
pub struct UpdateUserPublicInfoDto {
    pub firstname: Option<String>,
    pub lastname: Option<String>,
    pub username: Option<String>,
    pub gender: Option<String>,
    pub birthdate: Option<String>,
    pub biography: Option<String>,
}

/// The request to show or hide the profile of a user.
#[derive(Debug, Default, Clone)]
pub struct UpdateUserProfileStatusDto {
    pub is_profile_private: bool,
}

/// The request to change what an admin shows of itself.
#[derive(Debug, Default, Clone)]
pub struct UpdateAdminPublicInfoDto {
    pub firstname: Option<String>,
    pub lastname: Option<String>,
    pub username: Option<String>,
    pub birthdate: Option<String>,
    pub gender: Option<String>,
}

/// A search for users: the terms to match, and the page to serve.
#[derive(Debug, Default, Clone)]
pub struct SearchUserQueryDto {
    pub firstname: Option<String>,
    pub lastname: Option<String>,
    pub username: Option<String>,
    pub page: Option<u32>,
    pub limit: Option<usize>,
}

/// A search for admins: the terms to match, and the page to serve.
#[derive(Debug, Default, Clone)]
pub struct SearchAdminQueryDto {
    pub firstname: Option<String>,
    pub lastname: Option<String>,
    pub username: Option<String>,
    pub page: Option<u32>,
    pub limit: Option<usize>,
}

/// A user as sent out.
#[derive(Debug)]
pub struct UserDto {
    pub id: String,
    pub username: String,
    pub firstname: String,
    pub lastname: String,
    pub gender: String,
    pub biography: String,
    pub birthdate: Timestamp,
    pub emails: Vec<EmailDto>,
    pub created_at: Timestamp,
    pub updated_at: Timestamp,
}

impl UserDto {
    /// Whether this is `user` as sent out: the password left out, an absent
    /// biography shown as the empty text, and the emails without their
    /// owner.
    pub open spec fn shows(self, user: User) -> bool {
        &&& self.id@ == uuid_text(user.id)
        &&& self.username@ == user.username@
        &&& self.firstname@ == user.firstname@
        &&& self.lastname@ == user.lastname@
        &&& self.gender@ == user.gender.title()
        &&& self.biography@ == match user.biography {
            Some(biography) => biography@,
            None => Seq::<char>::empty(),
        }
        &&& self.birthdate == user.birthdate
        &&& self.emails@.len() == user.emails@.len()
        &&& forall|i: int|
            0 <= i < user.emails@.len() ==> (#[trigger] self.emails@[i]).shows(
                user.emails@[i],
                true,
            )
        &&& Some(self.created_at) == user.created_at
        &&& Some(self.updated_at) == user.updated_at
    }

    /// A user can be sent out once the store has dated it.
    pub open spec fn is_dated(user: User) -> bool {
        user.created_at is Some && user.updated_at is Some
    }

    /// The user as sent out.
    pub fn filter_user(user: &User) -> (dto: UserDto)
        requires
            UserDto::is_dated(*user),
        ensures
            dto.shows(*user),
    {
        UserDto {
            id: format_uuid(user.id),
            firstname: user.firstname.clone(),
            lastname: user.lastname.clone(),
            username: user.username.clone(),
            birthdate: user.birthdate,
            gender: user.gender.to_string(),
            created_at: user.created_at.unwrap(),
            updated_at: user.updated_at.unwrap(),
            emails: EmailDto::filter_emails(user.emails.as_slice(), true),
            biography: match &user.biography {
                Some(biography) => biography.clone(),
                None => String::new(),
            },
        }
    }

    /// The users as sent out, in their order.
    pub fn filter_users(users: &[User]) -> (dtos: Vec<UserDto>)
        requires
            forall|i: int| 0 <= i < users@.len() ==> UserDto::is_dated(#[trigger] users@[i]),
        ensures
            dtos@.len() == users@.len(),
            forall|i: int| 0 <= i < users@.len() ==> (#[trigger] dtos@[i]).shows(users@[i]),
    {
        let mut dtos: Vec<UserDto> = Vec::new();
        let mut i: usize = 0;
        while i < users.len()
            invariant
                0 <= i <= users@.len(),
                dtos@.len() == i,
                forall|j: int| 0 <= j < users@.len() ==> UserDto::is_dated(#[trigger] users@[j]),
                forall|j: int| 0 <= j < i ==> (#[trigger] dtos@[j]).shows(users@[j]),
            decreases users@.len() - i,
        {
            dtos.push(UserDto::filter_user(&users[i]));
            i += 1;
        }
        dtos
    }
}

/// An admin as sent out.
#[derive(Debug)]
pub struct AdminDto {
    pub id: String,
    pub username: String,
    pub firstname: String,
    pub lastname: String,
    pub gender: String,
    pub birthdate: Timestamp,
    pub emails: Vec<EmailDto>,
    pub created_at: Timestamp,
    pub updated_at: Timestamp,
}

impl AdminDto {
    /// Whether this is `admin` as sent out: the password left out, and the
    /// emails without their owner.
    pub open spec fn shows(self, admin: Admin) -> bool {
        &&& self.id@ == uuid_text(admin.id)
        &&& self.username@ == admin.username@
        &&& self.firstname@ == admin.firstname@
        &&& self.lastname@ == admin.lastname@
        &&& self.gender@ == admin.gender.title()
        &&& self.birthdate == admin.birthdate
        &&& self.emails@.len() == admin.emails@.len()
        &&& forall|i: int|
            0 <= i < admin.emails@.len() ==> (#[trigger] self.emails@[i]).shows(
                admin.emails@[i],
                true,
            )
        &&& Some(self.created_at) == admin.created_at
        &&& Some(self.updated_at) == admin.updated_at
    }

    /// An admin can be sent out once the store has dated it.
    pub open spec fn is_dated(admin: Admin) -> bool {
        admin.created_at is Some && admin.updated_at is Some
    }

    /// The admin as sent out.
    pub fn filter_admin(admin: &Admin) -> (dto: AdminDto)
        requires
            AdminDto::is_dated(*admin),
        ensures
            dto.shows(*admin),
    {
        AdminDto {
            id: format_uuid(admin.id),
            firstname: admin.firstname.clone(),
            lastname: admin.lastname.clone(),
            username: admin.username.clone(),
            birthdate: admin.birthdate,
            gender: admin.gender.to_string(),
            emails: EmailDto::filter_emails(admin.emails.as_slice(), true),
            created_at: admin.created_at.unwrap(),
            updated_at: admin.updated_at.unwrap(),
        }
    }

    /// The admins as sent out, in their order.
    pub fn filter_admins(admins: &[Admin]) -> (dtos: Vec<AdminDto>)
        requires
            forall|i: int| 0 <= i < admins@.len() ==> AdminDto::is_dated(#[trigger] admins@[i]),
        ensures
            dtos@.len() == admins@.len(),
            forall|i: int| 0 <= i < admins@.len() ==> (#[trigger] dtos@[i]).shows(admins@[i]),
    {
        let mut dtos: Vec<AdminDto> = Vec::new();
        let mut i: usize = 0;
        while i < admins.len()
            invariant
                0 <= i <= admins@.len(),
                dtos@.len() == i,
                forall|j: int|
                    0 <= j < admins@.len() ==> AdminDto::is_dated(#[trigger] admins@[j]),
                forall|j: int| 0 <= j < i ==> (#[trigger] dtos@[j]).shows(admins@[j]),
            decreases admins@.len() - i,
        {
            dtos.push(AdminDto::filter_admin(&admins[i]));
            i += 1;
        }
        dtos
    }
}

/// The part of a path that names a user.
pub struct GetUserParamsDto {
    pub user_id: String,
}

/// The reply that carries one user.
#[derive(Debug)]
pub struct UserResponseDto {
    pub status: u16,
    pub user: UserDto,
}

/// The reply that carries a list of users and their number.
#[derive(Debug)]
pub struct UserListResponseDto {
    pub status: u16,
    pub users: Vec<UserDto>,
    pub results: usize,
}

} // verus!
