//! What is received and sent about emails.

use vstd::prelude::*;

use crate::ids::format_uuid;
use crate::ids::uuid_text;
use crate::models::Email;

verus! {

/// What is asked for when an email is added.
#[derive(Debug, Default, Clone)]
pub struct CreateEmailDto {
    pub address: String,
    pub is_private: Option<bool>,
    pub is_primary: Option<bool>,
}

/// The columns of an email to set; an absent one is left as it is.
#[derive(Debug, Default, Clone)]
pub struct UpdateEmailDto {
    pub address: Option<String>,
    pub is_private: Option<bool>,
    pub is_primary: Option<bool>,
    pub is_verified: Option<bool>,
}

/// The request to change the address of an email.
#[derive(Debug, Default, Clone)]
pub struct UpdateEmailAddressDto {
    pub address: Option<String>,
}

/// The request to show or hide an email.
#[derive(Debug, Default, Clone)]
pub struct UpdateEmailPrivacyDto {
    pub is_private: Option<bool>,
}

/// The request to make an email the primary one, or not.
#[derive(Debug, Default, Clone)]
pub struct UpdateEmailPrimaryStatusDto {
    pub is_primary: Option<bool>,
}

/// An email as anyone may see it.
#[derive(Debug)]
pub struct EmailDto {
    pub id: String,
    pub address: String,
    pub is_primary: bool,
    pub owner_id: Option<String>,
}

impl EmailDto {
    /// Whether this is `email` as anyone may see it, the owner left out
    /// where `remove_owner_id` says so.
    pub open spec fn shows(self, email: Email, remove_owner_id: bool) -> bool {
        &&& self.id@ == uuid_text(email.id)
        &&& self.address@ == email.address@
        &&& self.is_primary == email.is_primary
        &&& match self.owner_id {
            Some(owner) => !remove_owner_id && owner@ == uuid_text(email.owner_id),
            None => remove_owner_id,
        }
    }

    /// The email as anyone may see it.
    pub fn filter_email(email: &Email, remove_owner_id: bool) -> (dto: EmailDto)
        ensures
            dto.shows(*email, remove_owner_id),
    {
        EmailDto {
            id: format_uuid(email.id),
            address: email.address.clone(),
            is_primary: email.is_primary,
            owner_id: if remove_owner_id {
                None
            } else {
                Some(format_uuid(email.owner_id))
            },
        }
    }

    /// The emails as anyone may see them, in their order.
    pub fn filter_emails(emails: &[Email], remove_owner_id: bool) -> (dtos: Vec<EmailDto>)
        ensures
            dtos@.len() == emails@.len(),
            forall|i: int|
                0 <= i < emails@.len() ==> (#[trigger] dtos@[i]).shows(emails@[i], remove_owner_id),
    {
        let mut dtos: Vec<EmailDto> = Vec::new();
        let mut i: usize = 0;
        while i < emails.len()
            invariant
                0 <= i <= emails@.len(),
                dtos@.len() == i,
                forall|j: int|
                    0 <= j < i ==> (#[trigger] dtos@[j]).shows(emails@[j], remove_owner_id),
            decreases emails@.len() - i,
        {
            dtos.push(EmailDto::filter_email(&emails[i], remove_owner_id));
            i += 1;
        }
        dtos
    }
}

/// An email as its owner sees it.
#[derive(Debug)]
pub struct PersonalEmailDto {
    pub id: String,
    pub address: String,
    pub is_primary: bool,
    pub is_private: bool,
    pub is_verified: bool,
}

impl PersonalEmailDto {
    /// Whether this is `email` as its owner sees it.
    pub open spec fn shows(self, email: Email) -> bool {
        &&& self.id@ == uuid_text(email.id)
        &&& self.address@ == email.address@
        &&& self.is_primary == email.is_primary
        &&& self.is_private == email.is_private
        &&& self.is_verified == email.is_verified
    }

    /// The email as its owner sees it.
    pub fn filter_email(email: &Email) -> (dto: PersonalEmailDto)
        ensures
            dto.shows(*email),
    {
        PersonalEmailDto {
            id: format_uuid(email.id),
            address: email.address.clone(),
            is_primary: email.is_primary,
            is_private: email.is_private,
            is_verified: email.is_verified,
        }
    }

    /// The emails as their owner sees them, in their order.
    pub fn filter_emails(emails: &[Email]) -> (dtos: Vec<PersonalEmailDto>)
        ensures
            dtos@.len() == emails@.len(),
            forall|i: int| 0 <= i < emails@.len() ==> (#[trigger] dtos@[i]).shows(emails@[i]),
    {
        let mut dtos: Vec<PersonalEmailDto> = Vec::new();
        let mut i: usize = 0;
        while i < emails.len()
            invariant
                0 <= i <= emails@.len(),
                dtos@.len() == i,
                forall|j: int| 0 <= j < i ==> (#[trigger] dtos@[j]).shows(emails@[j]),
            decreases emails@.len() - i,
        {
            dtos.push(PersonalEmailDto::filter_email(&emails[i]));
            i += 1;
        }
        dtos
    }
}

/// The part of a path that names an email.
pub struct GetEmailByIdParamsDto {
    pub id: String,
}

/// The part of a path that names the owner of emails.
pub struct GetEmailsByOwnerIdParamsDto {
    pub owner_id: String,
}

/// The reply that carries one email.
#[derive(Debug)]
pub struct EmailResponseDto {
    pub status: u16,
    pub email: EmailDto,
    pub owner_id: u128,
}

/// The reply that carries the emails of an owner and their number.
#[derive(Debug)]
pub struct EmailListResponseDto {
    pub status: u16,
    pub emails: Vec<EmailDto>,
    pub results: usize,
    pub owner_id: u128,
}

} // verus!
