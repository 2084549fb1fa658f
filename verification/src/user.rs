//! The authenticated user's record, the result bundle of a login, and the
//! rule that selects which fields of a user record are written out.

use crate::fields::{EntryView, OtherFields};
use vstd::prelude::*;

verus! {

/// What the provider knows of a device that may log in.
#[derive(Debug)]
pub struct DeviceInfo {
    /// Linux, Windows, Android ...
    pub os: String,
    /// `browser` or `client`
    pub kind: String,
    /// Device name from the client, or browser name and version.
    pub name: String,
}

pub struct DeviceInfoView {
    pub os: Seq<char>,
    pub kind: Seq<char>,
    pub name: Seq<char>,
}

impl View for DeviceInfo {
    type V = DeviceInfoView;

    open spec fn view(&self) -> DeviceInfoView {
        DeviceInfoView { os: self.os@, kind: self.kind@, name: self.name@ }
    }
}

impl Clone for DeviceInfo {
    fn clone(&self) -> (r: Self)
        ensures
            r@ == self@,
    {
        DeviceInfo { os: self.os.clone(), kind: self.kind.clone(), name: self.name.clone() }
    }
}

impl Default for DeviceInfo {
    fn default() -> (r: Self)
        ensures
            r@ == (DeviceInfoView { os: Seq::empty(), kind: Seq::empty(), name: Seq::empty() }),
    {
        DeviceInfo { os: String::new(), kind: String::new(), name: String::new() }
    }
}

/// One entry of the list of devices that may log in without a second check.
#[derive(Debug)]
pub struct WhitelistItem {
    data: String,
    info: DeviceInfo,
    exp: u64,
}

pub struct WhitelistItemView {
    /// IP address or device identifier.
    pub data: Seq<char>,
    pub info: DeviceInfoView,
    /// Time at which the entry expires.
    pub exp: u64,
}

impl View for WhitelistItem {
    type V = WhitelistItemView;

    closed spec fn view(&self) -> WhitelistItemView {
        WhitelistItemView { data: self.data@, info: self.info@, exp: self.exp }
    }
}

impl WhitelistItem {
    pub fn new(data: String, info: DeviceInfo, exp: u64) -> (r: Self)
        ensures
            r@ == (WhitelistItemView { data: data@, info: info@, exp }),
    {
        WhitelistItem { data, info, exp }
    }

    /// IP address or device identifier.
    pub fn data(&self) -> (r: &String)
        ensures
            r@ == self@.data,
    {
        &self.data
    }

    pub fn info(&self) -> (r: &DeviceInfo)
        ensures
            r@ == self@.info,
    {
        &self.info
    }

    /// Time at which the entry expires.
    pub fn exp(&self) -> (r: u64)
        ensures
            r == self@.exp,
    {
        self.exp
    }
}

impl Clone for WhitelistItem {
    fn clone(&self) -> (r: Self)
        ensures
            r@ == self@,
    {
        WhitelistItem { data: self.data.clone(), info: self.info.clone(), exp: self.exp }
    }
}

impl Default for WhitelistItem {
    fn default() -> (r: Self)
        ensures
            r@ == (WhitelistItemView {
                data: Seq::empty(),
                info: DeviceInfoView { os: Seq::empty(), kind: Seq::empty(), name: Seq::empty() },
                exp: 0,
            }),
    {
        WhitelistItem { data: String::new(), info: DeviceInfo::default(), exp: 0 }
    }
}

/// Notification switches of a user.
#[derive(Debug, Clone, Copy, PartialEq, Eq, Structural)]
pub struct UserSettings {
    pub email_verification: bool,
    pub email_alarm_notification: bool,
}

impl Default for UserSettings {
    fn default() -> (r: Self)
        ensures
            r == (UserSettings { email_verification: false, email_alarm_notification: false }),
    {
        UserSettings { email_verification: false, email_alarm_notification: false }
    }
}

/// Settings, trusted devices and further fields of a user.
#[derive(Debug)]
pub struct UserInfo {
    pub settings: UserSettings,
    pub login_device_whitelist: Vec<WhitelistItem>,
    /// Fields that the library gives no meaning to, in the order of their
    /// names.
    pub other: OtherFields,
}

pub struct UserInfoView {
    pub settings: UserSettings,
    pub login_device_whitelist: Seq<WhitelistItemView>,
    pub other: Seq<EntryView>,
}

impl View for UserInfo {
    type V = UserInfoView;

    open spec fn view(&self) -> UserInfoView {
        UserInfoView {
            settings: self.settings,
            login_device_whitelist: self.login_device_whitelist@.map_values(
                |w: WhitelistItem| w@,
            ),
            other: self.other@,
        }
    }
}

impl Clone for UserInfo {
    fn clone(&self) -> (r: Self)
        ensures
            r@ == self@,
    {
        let mut list: Vec<WhitelistItem> = Vec::new();
        let mut i: usize = 0;
        while i < self.login_device_whitelist.len()
            invariant
                i <= self.login_device_whitelist.len(),
                list.len() == i,
                forall|j: int| 0 <= j < i ==> list[j]@ == self.login_device_whitelist[j]@,
            decreases self.login_device_whitelist.len() - i,
        {
            list.push(self.login_device_whitelist[i].clone());
            i += 1;
        }
        let other = self.other.clone();
        proof {
            assert(list@.map_values(|w: WhitelistItem| w@)
                =~= self.login_device_whitelist@.map_values(|w: WhitelistItem| w@));
        }
        UserInfo { settings: self.settings, login_device_whitelist: list, other }
    }
}

impl Default for UserInfo {
    fn default() -> (r: Self)
        ensures
            r@ == (UserInfoView {
                settings: UserSettings {
                    email_verification: false,
                    email_alarm_notification: false,
                },
                login_device_whitelist: Seq::empty(),
                other: Seq::empty(),
            }),
    {
        let other = OtherFields::new();
        let list: Vec<WhitelistItem> = Vec::new();
        proof {
            assert(list@.map_values(|w: WhitelistItem| w@) =~= Seq::<WhitelistItemView>::empty());
        }
        UserInfo { settings: UserSettings::default(), login_device_whitelist: list, other }
    }
}

/// Account status of a user, as the provider reports it.
#[derive(Debug, Clone, Copy, PartialEq, Eq, Structural)]
pub enum UserStatus {
    Disabled,
    Normal,
    Unverified,
}

impl UserStatus {
    /// The integer that stands for this status on the wire.
    pub open spec fn spec_code(self) -> int {
        match self {
            UserStatus::Disabled => 0,
            UserStatus::Normal => 1,
            UserStatus::Unverified => -1,
        }
    }

    /// The status that an integer on the wire stands for, if any.
    pub open spec fn spec_from_code(code: int) -> Option<UserStatus> {
        if code == 0 {
            Some(UserStatus::Disabled)
        } else if code == 1 {
            Some(UserStatus::Normal)
        } else if code == -1 {
            Some(UserStatus::Unverified)
        } else {
            None
        }
    }

    /// The integer that stands for this status on the wire.
    pub fn code(&self) -> (c: i64)
        ensures
            c == self.spec_code(),
    {
        match self {
            UserStatus::Disabled => 0,
            UserStatus::Normal => 1,
            UserStatus::Unverified => -1,
        }
    }

    /// Reads a status from its integer; `None` for an integer that stands for
    /// no status.
    pub fn from_code(code: i64) -> (r: Option<UserStatus>)
        ensures
            r == Self::spec_from_code(code as int),
    {
        if code == 0 {
            Some(UserStatus::Disabled)
        } else if code == 1 {
            Some(UserStatus::Normal)
        } else if code == -1 {
            Some(UserStatus::Unverified)
        } else {
            None
        }
    }
}

/// A field of a user record as it appears when the record is written out.
#[derive(Debug, Clone, Copy, PartialEq, Eq, Structural)]
pub enum UserField {
    Name,
    Email,
    Note,
    Status,
    Info,
    IsAdmin,
    ThirdAuthType,
}

impl UserField {
    /// The key under which the field is written.
    pub open spec fn spec_key(self) -> Seq<char> {
        match self {
            UserField::Name => "name"@,
            UserField::Email => "email"@,
            UserField::Note => "note"@,
            UserField::Status => "status"@,
            UserField::Info => "info"@,
            UserField::IsAdmin => "is_admin"@,
            UserField::ThirdAuthType => "third_auth_type"@,
        }
    }

    /// The key under which the field is written.
    pub fn key(&self) -> (k: &'static str)
        ensures
            k@ == self.spec_key(),
    {
        match self {
            UserField::Name => "name",
            UserField::Email => "email",
            UserField::Note => "note",
            UserField::Status => "status",
            UserField::Info => "info",
            UserField::IsAdmin => "is_admin",
            UserField::ThirdAuthType => "third_auth_type",
        }
    }
}

/// The fields of a record kept on the device: those that identify the user
/// and nothing else.
pub open spec fn local_fields() -> Seq<UserField> {
    seq![UserField::Name, UserField::Status]
}

/// The fields of a record handed on in full.
pub open spec fn full_fields() -> Seq<UserField> {
    seq![
        UserField::Name,
        UserField::Email,
        UserField::Note,
        UserField::Status,
        UserField::Info,
        UserField::IsAdmin,
        UserField::ThirdAuthType,
    ]
}

/// The authenticated user.
#[derive(Debug)]
pub struct UserPayload {
    pub name: String,
    pub email: Option<String>,
    pub note: Option<String>,
    pub status: UserStatus,
    pub info: UserInfo,
    pub is_admin: bool,
    pub third_auth_type: Option<String>,
    /// Selects the fields that are written out; never written itself.
    pub ser_store_local: bool,
}

pub struct UserPayloadView {
    pub name: Seq<char>,
    pub email: Option<Seq<char>>,
    pub note: Option<Seq<char>>,
    pub status: UserStatus,
    pub info: UserInfoView,
    pub is_admin: bool,
    pub third_auth_type: Option<Seq<char>>,
    pub ser_store_local: bool,
}

impl UserPayloadView {
    /// The fields that are written out for this record, in their order.
    pub open spec fn serialized_fields(self) -> Seq<UserField> {
        if self.ser_store_local {
            local_fields()
        } else {
            full_fields()
        }
    }

    /// This record with the choice of fields set to `local`.
    pub open spec fn with_store_local(self, local: bool) -> UserPayloadView {
        UserPayloadView { ser_store_local: local, ..self }
    }
}

impl View for UserPayload {
    type V = UserPayloadView;

    open spec fn view(&self) -> UserPayloadView {
        UserPayloadView {
            name: self.name@,
            email: self.email.deep_view(),
            note: self.note.deep_view(),
            status: self.status,
            info: self.info@,
            is_admin: self.is_admin,
            third_auth_type: self.third_auth_type.deep_view(),
            ser_store_local: self.ser_store_local,
        }
    }
}

impl Clone for UserPayload {
    fn clone(&self) -> (r: Self)
        ensures
            r@ == self@,
    {
        UserPayload {
            name: self.name.clone(),
            email: self.email.clone(),
            note: self.note.clone(),
            status: self.status,
            info: self.info.clone(),
            is_admin: self.is_admin,
            third_auth_type: self.third_auth_type.clone(),
            ser_store_local: self.ser_store_local,
        }
    }
}

impl UserPayload {
    /// The fields to write out for this record, in their order: name and
    /// status alone where the record is marked for the device's own storage,
    /// all seven otherwise. The mark itself is never among them.
    pub fn serialized_fields(&self) -> (r: Vec<UserField>)
        ensures
            r@ == self@.serialized_fields(),
    {
        let mut r: Vec<UserField> = Vec::new();
        r.push(UserField::Name);
        if !self.ser_store_local {
            r.push(UserField::Email);
            r.push(UserField::Note);
        }
        r.push(UserField::Status);
        if !self.ser_store_local {
            r.push(UserField::Info);
            r.push(UserField::IsAdmin);
            r.push(UserField::ThirdAuthType);
        }
        proof {
            assert(r@ =~= self@.serialized_fields());
        }
        r
    }

    /// A copy of this record, marked for the device's own storage if `local`
    /// and for handing on in full if not.
    pub fn with_store_local(&self, local: bool) -> (r: UserPayload)
        ensures
            r@ == self@.with_store_local(local),
    {
        let mut r = self.clone();
        r.ser_store_local = local;
        r
    }
}

/// What a successful login yields: the credential and the user it is for.
#[derive(Debug)]
pub struct AuthBody {
    pub access_token: String,
    pub token_type: String,
    pub user: UserPayload,
}

pub struct AuthBodyView {
    pub access_token: Seq<char>,
    pub token_type: Seq<char>,
    pub user: UserPayloadView,
}

impl View for AuthBody {
    type V = AuthBodyView;

    open spec fn view(&self) -> AuthBodyView {
        AuthBodyView {
            access_token: self.access_token@,
            token_type: self.token_type@,
            user: self.user@,
        }
    }
}

impl Clone for AuthBody {
    fn clone(&self) -> (r: Self)
        ensures
            r@ == self@,
    {
        AuthBody {
            access_token: self.access_token.clone(),
            token_type: self.token_type.clone(),
            user: self.user.clone(),
        }
    }
}

} // verus!
