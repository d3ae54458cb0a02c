//! The claims about an end user that every provider knows: name, e-mail,
//! phone and address.

use crate::json::{Json, JsonError, JsonFault, JsonValue};
use crate::reader::{
    agrees, find, members_of, optional, optional_flag, optional_text, optional_unsigned,
    plain_entries, plain_members, read_flag, read_text, read_unsigned, Entry, Member,
};
use crate::text::optional_str;
use vstd::prelude::*;
use vstd::string::StringExecFns;

verus! {

/// A postal address.
#[derive(Debug, Clone, PartialEq, Eq)]
pub struct AddressClaim {
    formatted: Option<String>,
    street_address: Option<String>,
    locality: Option<String>,
    region: Option<String>,
    postal_code: Option<String>,
    country: Option<String>,
}

/// What an `AddressClaim` holds.
pub struct AddressView {
    pub formatted: Option<Seq<char>>,
    pub street_address: Option<Seq<char>>,
    pub locality: Option<Seq<char>>,
    pub region: Option<Seq<char>>,
    pub postal_code: Option<Seq<char>>,
    pub country: Option<Seq<char>>,
}

impl View for AddressClaim {
    type V = AddressView;

    closed spec fn view(&self) -> AddressView {
        AddressView {
            formatted: self.formatted.deep_view(),
            street_address: self.street_address.deep_view(),
            locality: self.locality.deep_view(),
            region: self.region.deep_view(),
            postal_code: self.postal_code.deep_view(),
            country: self.country.deep_view(),
        }
    }
}

impl DeepView for AddressClaim {
    type V = AddressView;

    open spec fn deep_view(&self) -> AddressView {
        self@
    }
}

/// The address that the members of a document stand for.
pub open spec fn address_of(entries: Seq<Entry>) -> Result<AddressView, JsonFault> {
    let formatted = optional_text(entries, "formatted"@);
    let street_address = optional_text(entries, "street_address"@);
    let locality = optional_text(entries, "locality"@);
    let region = optional_text(entries, "region"@);
    let postal_code = optional_text(entries, "postal_code"@);
    let country = optional_text(entries, "country"@);
    if formatted is Err {
        Err(formatted->Err_0)
    } else if street_address is Err {
        Err(street_address->Err_0)
    } else if locality is Err {
        Err(locality->Err_0)
    } else if region is Err {
        Err(region->Err_0)
    } else if postal_code is Err {
        Err(postal_code->Err_0)
    } else if country is Err {
        Err(country->Err_0)
    } else {
        Ok(
            AddressView {
                formatted: formatted->Ok_0,
                street_address: street_address->Ok_0,
                locality: locality->Ok_0,
                region: region->Ok_0,
                postal_code: postal_code->Ok_0,
                country: country->Ok_0,
            },
        )
    }
}

/// The address that a value holds.
pub open spec fn as_address(value: Json) -> Option<AddressView> {
    match members_of(value) {
        Ok(members) => match address_of(plain_entries(members)) {
            Ok(address) => Some(address),
            Err(_) => None,
        },
        Err(_) => None,
    }
}

/// An address that may be absent from an object.
pub open spec fn optional_address(entries: Seq<Entry>, name: Seq<char>) -> Result<
    Option<AddressView>,
    JsonFault,
> {
    optional(entries, name, |value: Json| as_address(value))
}

impl AddressClaim {
    /// Reads an address from its document.
    pub fn from_json(doc: &JsonValue) -> (r: Option<AddressClaim>)
        ensures
            r.deep_view() == as_address(doc@),
    {
        let entries = match plain_members(doc) {
            Ok(entries) => entries,
            Err(_) => {
                return None;
            },
        };
        let formatted = match read_text(&entries, "formatted") {
            Ok(value) => value,
            Err(_) => {
                return None;
            },
        };
        let street_address = match read_text(&entries, "street_address") {
            Ok(value) => value,
            Err(_) => {
                return None;
            },
        };
        let locality = match read_text(&entries, "locality") {
            Ok(value) => value,
            Err(_) => {
                return None;
            },
        };
        let region = match read_text(&entries, "region") {
            Ok(value) => value,
            Err(_) => {
                return None;
            },
        };
        let postal_code = match read_text(&entries, "postal_code") {
            Ok(value) => value,
            Err(_) => {
                return None;
            },
        };
        let country = match read_text(&entries, "country") {
            Ok(value) => value,
            Err(_) => {
                return None;
            },
        };
        Some(AddressClaim { formatted, street_address, locality, region, postal_code, country })
    }

    /// The whole address as one text.
    pub fn formatted(&self) -> (value: Option<&str>)
        ensures
            value.deep_view() == self@.formatted,
    {
        optional_str(&self.formatted)
    }

    /// The street, with the house number.
    pub fn street_address(&self) -> (value: Option<&str>)
        ensures
            value.deep_view() == self@.street_address,
    {
        optional_str(&self.street_address)
    }

    /// The city or town.
    pub fn locality(&self) -> (value: Option<&str>)
        ensures
            value.deep_view() == self@.locality,
    {
        optional_str(&self.locality)
    }

    /// The state, province or region.
    pub fn region(&self) -> (value: Option<&str>)
        ensures
            value.deep_view() == self@.region,
    {
        optional_str(&self.region)
    }

    /// The postal code.
    pub fn postal_code(&self) -> (value: Option<&str>)
        ensures
            value.deep_view() == self@.postal_code,
    {
        optional_str(&self.postal_code)
    }

    /// The country.
    pub fn country(&self) -> (value: Option<&str>)
        ensures
            value.deep_view() == self@.country,
    {
        optional_str(&self.country)
    }

}

/// Reads an address that may be absent.
pub fn read_address(
    entries: &Vec<Member>,
    name: &str,
) -> (r: Result<Option<AddressClaim>, JsonError>)
    ensures
        agrees(r, optional_address(entries.deep_view(), name@)),
{
    match find(entries, name) {
        Err(error) => Err(error),
        Ok(None) => Ok(None),
        Ok(Some(value)) => match AddressClaim::from_json(value) {
            Some(address) => Ok(Some(address)),
            None => Err(JsonError::InvalidValue(String::from_str(name))),
        },
    }
}

/// The claims about an end user that every provider knows. None of them
/// must be there.
#[derive(Debug, Clone, PartialEq, Eq)]
pub struct StandardClaims {
    name: Option<String>,
    given_name: Option<String>,
    family_name: Option<String>,
    middle_name: Option<String>,
    nickname: Option<String>,
    preferred_username: Option<String>,
    profile: Option<String>,
    picture: Option<String>,
    website: Option<String>,
    email: Option<String>,
    email_verified: Option<bool>,
    gender: Option<String>,
    birthdate: Option<String>,
    zoneinfo: Option<String>,
    locale: Option<String>,
    phone_number: Option<String>,
    phone_number_verified: Option<bool>,
    address: Option<AddressClaim>,
    updated_at: Option<u64>,
}

/// What `StandardClaims` hold.
pub struct StandardClaimsView {
    pub name: Option<Seq<char>>,
    pub given_name: Option<Seq<char>>,
    pub family_name: Option<Seq<char>>,
    pub middle_name: Option<Seq<char>>,
    pub nickname: Option<Seq<char>>,
    pub preferred_username: Option<Seq<char>>,
    pub profile: Option<Seq<char>>,
    pub picture: Option<Seq<char>>,
    pub website: Option<Seq<char>>,
    pub email: Option<Seq<char>>,
    pub email_verified: Option<bool>,
    pub gender: Option<Seq<char>>,
    pub birthdate: Option<Seq<char>>,
    pub zoneinfo: Option<Seq<char>>,
    pub locale: Option<Seq<char>>,
    pub phone_number: Option<Seq<char>>,
    pub phone_number_verified: Option<bool>,
    pub address: Option<AddressView>,
    pub updated_at: Option<u64>,
}

impl View for StandardClaims {
    type V = StandardClaimsView;

    closed spec fn view(&self) -> StandardClaimsView {
        StandardClaimsView {
            name: self.name.deep_view(),
            given_name: self.given_name.deep_view(),
            family_name: self.family_name.deep_view(),
            middle_name: self.middle_name.deep_view(),
            nickname: self.nickname.deep_view(),
            preferred_username: self.preferred_username.deep_view(),
            profile: self.profile.deep_view(),
            picture: self.picture.deep_view(),
            website: self.website.deep_view(),
            email: self.email.deep_view(),
            email_verified: self.email_verified.deep_view(),
            gender: self.gender.deep_view(),
            birthdate: self.birthdate.deep_view(),
            zoneinfo: self.zoneinfo.deep_view(),
            locale: self.locale.deep_view(),
            phone_number: self.phone_number.deep_view(),
            phone_number_verified: self.phone_number_verified.deep_view(),
            address: self.address.deep_view(),
            updated_at: self.updated_at.deep_view(),
        }
    }
}

impl DeepView for StandardClaims {
    type V = StandardClaimsView;

    open spec fn deep_view(&self) -> StandardClaimsView {
        self@
    }
}

/// The standard claims that the members of a document stand for. Where
/// several members are at fault, the fault of the first in the order below
/// is the one that counts.
pub open spec fn standard_claims_of(entries: Seq<Entry>) -> Result<StandardClaimsView, JsonFault> {
    let name = optional_text(entries, "name"@);
    let given_name = optional_text(entries, "given_name"@);
    let family_name = optional_text(entries, "family_name"@);
    let middle_name = optional_text(entries, "middle_name"@);
    let nickname = optional_text(entries, "nickname"@);
    let preferred_username = optional_text(entries, "preferred_username"@);
    let profile = optional_text(entries, "profile"@);
    let picture = optional_text(entries, "picture"@);
    let website = optional_text(entries, "website"@);
    let email = optional_text(entries, "email"@);
    let email_verified = optional_flag(entries, "email_verified"@);
    let gender = optional_text(entries, "gender"@);
    let birthdate = optional_text(entries, "birthdate"@);
    let zoneinfo = optional_text(entries, "zoneinfo"@);
    let locale = optional_text(entries, "locale"@);
    let phone_number = optional_text(entries, "phone_number"@);
    let phone_number_verified = optional_flag(entries, "phone_number_verified"@);
    let address = optional_address(entries, "address"@);
    let updated_at = optional_unsigned(entries, "updated_at"@);
    if name is Err {
        Err(name->Err_0)
    } else if given_name is Err {
        Err(given_name->Err_0)
    } else if family_name is Err {
        Err(family_name->Err_0)
    } else if middle_name is Err {
        Err(middle_name->Err_0)
    } else if nickname is Err {
        Err(nickname->Err_0)
    } else if preferred_username is Err {
        Err(preferred_username->Err_0)
    } else if profile is Err {
        Err(profile->Err_0)
    } else if picture is Err {
        Err(picture->Err_0)
    } else if website is Err {
        Err(website->Err_0)
    } else if email is Err {
        Err(email->Err_0)
    } else if email_verified is Err {
        Err(email_verified->Err_0)
    } else if gender is Err {
        Err(gender->Err_0)
    } else if birthdate is Err {
        Err(birthdate->Err_0)
    } else if zoneinfo is Err {
        Err(zoneinfo->Err_0)
    } else if locale is Err {
        Err(locale->Err_0)
    } else if phone_number is Err {
        Err(phone_number->Err_0)
    } else if phone_number_verified is Err {
        Err(phone_number_verified->Err_0)
    } else if address is Err {
        Err(address->Err_0)
    } else if updated_at is Err {
        Err(updated_at->Err_0)
    } else {
        Ok(
            StandardClaimsView {
                name: name->Ok_0,
                given_name: given_name->Ok_0,
                family_name: family_name->Ok_0,
                middle_name: middle_name->Ok_0,
                nickname: nickname->Ok_0,
                preferred_username: preferred_username->Ok_0,
                profile: profile->Ok_0,
                picture: picture->Ok_0,
                website: website->Ok_0,
                email: email->Ok_0,
                email_verified: email_verified->Ok_0,
                gender: gender->Ok_0,
                birthdate: birthdate->Ok_0,
                zoneinfo: zoneinfo->Ok_0,
                locale: locale->Ok_0,
                phone_number: phone_number->Ok_0,
                phone_number_verified: phone_number_verified->Ok_0,
                address: address->Ok_0,
                updated_at: updated_at->Ok_0,
            },
        )
    }
}

impl StandardClaims {
    /// Reads the standard claims from the members of an object.
    pub fn from_members(entries: &Vec<Member>) -> (r: Result<StandardClaims, JsonError>)
        ensures
            agrees(r, standard_claims_of(entries.deep_view())),
    {
        let name = match read_text(entries, "name") {
            Ok(value) => value,
            Err(error) => {
                return Err(error);
            },
        };
        let given_name = match read_text(entries, "given_name") {
            Ok(value) => value,
            Err(error) => {
                return Err(error);
            },
        };
        let family_name = match read_text(entries, "family_name") {
            Ok(value) => value,
            Err(error) => {
                return Err(error);
            },
        };
        let middle_name = match read_text(entries, "middle_name") {
            Ok(value) => value,
            Err(error) => {
                return Err(error);
            },
        };
        let nickname = match read_text(entries, "nickname") {
            Ok(value) => value,
            Err(error) => {
                return Err(error);
            },
        };
        let preferred_username = match read_text(entries, "preferred_username") {
            Ok(value) => value,
            Err(error) => {
                return Err(error);
            },
        };
        let profile = match read_text(entries, "profile") {
            Ok(value) => value,
            Err(error) => {
                return Err(error);
            },
        };
        let picture = match read_text(entries, "picture") {
            Ok(value) => value,
            Err(error) => {
                return Err(error);
            },
        };
        let website = match read_text(entries, "website") {
            Ok(value) => value,
            Err(error) => {
                return Err(error);
            },
        };
        let email = match read_text(entries, "email") {
            Ok(value) => value,
            Err(error) => {
                return Err(error);
            },
        };
        let email_verified = match read_flag(entries, "email_verified") {
            Ok(value) => value,
            Err(error) => {
                return Err(error);
            },
        };
        let gender = match read_text(entries, "gender") {
            Ok(value) => value,
            Err(error) => {
                return Err(error);
            },
        };
        let birthdate = match read_text(entries, "birthdate") {
            Ok(value) => value,
            Err(error) => {
                return Err(error);
            },
        };
        let zoneinfo = match read_text(entries, "zoneinfo") {
            Ok(value) => value,
            Err(error) => {
                return Err(error);
            },
        };
        let locale = match read_text(entries, "locale") {
            Ok(value) => value,
            Err(error) => {
                return Err(error);
            },
        };
        let phone_number = match read_text(entries, "phone_number") {
            Ok(value) => value,
            Err(error) => {
                return Err(error);
            },
        };
        let phone_number_verified = match read_flag(entries, "phone_number_verified") {
            Ok(value) => value,
            Err(error) => {
                return Err(error);
            },
        };
        let address = match read_address(entries, "address") {
            Ok(value) => value,
            Err(error) => {
                return Err(error);
            },
        };
        let updated_at = match read_unsigned(entries, "updated_at") {
            Ok(value) => value,
            Err(error) => {
                return Err(error);
            },
        };
        Ok(
            StandardClaims {
                name,
                given_name,
                family_name,
                middle_name,
                nickname,
                preferred_username,
                profile,
                picture,
                website,
                email,
                email_verified,
                gender,
                birthdate,
                zoneinfo,
                locale,
                phone_number,
                phone_number_verified,
                address,
                updated_at,
            },
        )
    }

    /// The full name of the end user.
    pub fn name(&self) -> (value: Option<&str>)
        ensures
            value.deep_view() == self@.name,
    {
        optional_str(&self.name)
    }

    /// The given name of the end user.
    pub fn given_name(&self) -> (value: Option<&str>)
        ensures
            value.deep_view() == self@.given_name,
    {
        optional_str(&self.given_name)
    }

    /// The family name of the end user.
    pub fn family_name(&self) -> (value: Option<&str>)
        ensures
            value.deep_view() == self@.family_name,
    {
        optional_str(&self.family_name)
    }

    /// The middle name of the end user.
    pub fn middle_name(&self) -> (value: Option<&str>)
        ensures
            value.deep_view() == self@.middle_name,
    {
        optional_str(&self.middle_name)
    }

    /// The casual name of the end user.
    pub fn nickname(&self) -> (value: Option<&str>)
        ensures
            value.deep_view() == self@.nickname,
    {
        optional_str(&self.nickname)
    }

    /// The name by which the end user wishes to be known at the client.
    pub fn preferred_username(&self) -> (value: Option<&str>)
        ensures
            value.deep_view() == self@.preferred_username,
    {
        optional_str(&self.preferred_username)
    }

    /// The address of the end user's profile page.
    pub fn profile(&self) -> (value: Option<&str>)
        ensures
            value.deep_view() == self@.profile,
    {
        optional_str(&self.profile)
    }

    /// The address of the end user's picture.
    pub fn picture(&self) -> (value: Option<&str>)
        ensures
            value.deep_view() == self@.picture,
    {
        optional_str(&self.picture)
    }

    /// The address of the end user's web site.
    pub fn website(&self) -> (value: Option<&str>)
        ensures
            value.deep_view() == self@.website,
    {
        optional_str(&self.website)
    }

    /// The e-mail address of the end user.
    pub fn email(&self) -> (value: Option<&str>)
        ensures
            value.deep_view() == self@.email,
    {
        optional_str(&self.email)
    }

    /// Whether the e-mail address was verified.
    pub fn email_verified(&self) -> (value: Option<bool>)
        ensures
            value.deep_view() == self@.email_verified,
    {
        self.email_verified
    }

    /// The gender of the end user.
    pub fn gender(&self) -> (value: Option<&str>)
        ensures
            value.deep_view() == self@.gender,
    {
        optional_str(&self.gender)
    }

    /// The birthday of the end user.
    pub fn birthdate(&self) -> (value: Option<&str>)
        ensures
            value.deep_view() == self@.birthdate,
    {
        optional_str(&self.birthdate)
    }

    /// The time zone of the end user.
    pub fn zoneinfo(&self) -> (value: Option<&str>)
        ensures
            value.deep_view() == self@.zoneinfo,
    {
        optional_str(&self.zoneinfo)
    }

    /// The locale of the end user.
    pub fn locale(&self) -> (value: Option<&str>)
        ensures
            value.deep_view() == self@.locale,
    {
        optional_str(&self.locale)
    }

    /// The phone number of the end user.
    pub fn phone_number(&self) -> (value: Option<&str>)
        ensures
            value.deep_view() == self@.phone_number,
    {
        optional_str(&self.phone_number)
    }

    /// Whether the phone number was verified.
    pub fn phone_number_verified(&self) -> (value: Option<bool>)
        ensures
            value.deep_view() == self@.phone_number_verified,
    {
        self.phone_number_verified
    }

    /// The postal address of the end user.
    pub fn address(&self) -> (value: Option<&AddressClaim>)
        ensures
            value.deep_view() == self@.address,
    {
        self.address.as_ref()
    }

    /// When the claims were last changed, in seconds since the start of 1970.
    pub fn updated_at(&self) -> (value: Option<u64>)
        ensures
            value.deep_view() == self@.updated_at,
    {
        self.updated_at
    }

}

} // verus!
