use vstd::prelude::*;

verus! {

/// The category a tenant setting belongs to, stored as a signed byte.
#[derive(Clone, Copy, Debug, PartialEq, Eq, Structural, Default)]
pub enum TenantSettingCategory {
    #[default]
    Security,
}

impl TenantSettingCategory {
    /// The storage code of this category.
    pub open spec fn spec_code(&self) -> i8 {
        match self {
            TenantSettingCategory::Security => 0,
        }
    }

    /// The storage code of this category.
    pub fn code(&self) -> (r: i8)
        ensures
            r == self.spec_code(),
    {
        match self {
            TenantSettingCategory::Security => 0,
        }
    }

    /// The category a storage code denotes; codes outside the known range
    /// denote none.
    pub fn from_code(v: i8) -> (r: Option<TenantSettingCategory>)
        ensures
            r matches Some(c) ==> c.spec_code() == v,
            r is None <==> !(v == 0),
    {
        if v == 0 {
            Some(TenantSettingCategory::Security)
        } else {
            None
        }
    }
}

/// The lifecycle state of a user account, stored as a signed byte.
#[derive(Clone, Copy, Debug, PartialEq, Eq, Structural, Default)]
pub enum UserStatus {
    #[default]
    Unverified,
    Active,
    Locked,
    Suspended,
    OnDeletion,
}

impl UserStatus {
    /// The storage code of this status.
    pub open spec fn spec_code(&self) -> i8 {
        match self {
            UserStatus::Unverified => 0,
            UserStatus::Active => 1,
            UserStatus::Locked => 2,
            UserStatus::Suspended => 3,
            UserStatus::OnDeletion => 4,
        }
    }

    /// The storage code of this status.
    pub fn code(&self) -> (r: i8)
        ensures
            r == self.spec_code(),
    {
        match self {
            UserStatus::Unverified => 0,
            UserStatus::Active => 1,
            UserStatus::Locked => 2,
            UserStatus::Suspended => 3,
            UserStatus::OnDeletion => 4,
        }
    }

    /// The status a storage code denotes; codes outside the known range
    /// denote none.
    pub fn from_code(v: i8) -> (r: Option<UserStatus>)
        ensures
            r matches Some(s) ==> s.spec_code() == v,
            r is None <==> !(0 <= v <= 4),
    {
        match v {
            0 => Some(UserStatus::Unverified),
            1 => Some(UserStatus::Active),
            2 => Some(UserStatus::Locked),
            3 => Some(UserStatus::Suspended),
            4 => Some(UserStatus::OnDeletion),
            _ => None,
        }
    }
}

/// The channel a multi-factor code is delivered over, stored as a signed
/// byte.
#[derive(Clone, Copy, Debug, PartialEq, Eq, Structural, Default)]
pub enum MFACodeType {
    #[default]
    Email,
    SMS,
    Whatsapp,
    PushNotification,
}

impl MFACodeType {
    /// The storage code of this channel.
    pub open spec fn spec_code(&self) -> i8 {
        match self {
            MFACodeType::Email => 0,
            MFACodeType::SMS => 1,
            MFACodeType::Whatsapp => 2,
            MFACodeType::PushNotification => 3,
        }
    }

    /// The storage code of this channel.
    pub fn code(&self) -> (r: i8)
        ensures
            r == self.spec_code(),
    {
        match self {
            MFACodeType::Email => 0,
            MFACodeType::SMS => 1,
            MFACodeType::Whatsapp => 2,
            MFACodeType::PushNotification => 3,
        }
    }

    /// The channel a storage code denotes; codes outside the known range
    /// denote none.
    pub fn from_code(v: i8) -> (r: Option<MFACodeType>)
        ensures
            r matches Some(c) ==> c.spec_code() == v,
            r is None <==> !(0 <= v <= 3),
    {
        match v {
            0 => Some(MFACodeType::Email),
            1 => Some(MFACodeType::SMS),
            2 => Some(MFACodeType::Whatsapp),
            3 => Some(MFACodeType::PushNotification),
            _ => None,
        }
    }
}

/// The kind of client an API credential belongs to, stored as a signed
/// byte.
#[derive(Clone, Copy, Debug, PartialEq, Eq, Structural, Default)]
pub enum APIClientType {
    #[default]
    Internal,
    Web,
    Desktop,
    Mobile,
    Console,
    IOT,
}

impl APIClientType {
    /// The storage code of this client kind.
    pub open spec fn spec_code(&self) -> i8 {
        match self {
            APIClientType::Internal => 0,
            APIClientType::Web => 1,
            APIClientType::Desktop => 2,
            APIClientType::Mobile => 3,
            APIClientType::Console => 4,
            APIClientType::IOT => 5,
        }
    }

    /// The storage code of this client kind.
    pub fn code(&self) -> (r: i8)
        ensures
            r == self.spec_code(),
    {
        match self {
            APIClientType::Internal => 0,
            APIClientType::Web => 1,
            APIClientType::Desktop => 2,
            APIClientType::Mobile => 3,
            APIClientType::Console => 4,
            APIClientType::IOT => 5,
        }
    }

    /// The client kind a storage code denotes; codes outside the known
    /// range denote none.
    pub fn from_code(v: i8) -> (r: Option<APIClientType>)
        ensures
            r matches Some(c) ==> c.spec_code() == v,
            r is None <==> !(0 <= v <= 5),
    {
        match v {
            0 => Some(APIClientType::Internal),
            1 => Some(APIClientType::Web),
            2 => Some(APIClientType::Desktop),
            3 => Some(APIClientType::Mobile),
            4 => Some(APIClientType::Console),
            5 => Some(APIClientType::IOT),
            _ => None,
        }
    }
}

/// Where a notification stands in its delivery, stored as a signed byte.
#[derive(Clone, Copy, Debug, PartialEq, Eq, Structural, Default)]
pub enum NotificationStatus {
    #[default]
    Pending,
    Sent,
    Read,
    Failed,
}

impl NotificationStatus {
    /// The storage code of this status.
    pub open spec fn spec_code(&self) -> i8 {
        match self {
            NotificationStatus::Pending => 0,
            NotificationStatus::Sent => 1,
            NotificationStatus::Read => 2,
            NotificationStatus::Failed => 3,
        }
    }

    /// The storage code of this status.
    pub fn code(&self) -> (r: i8)
        ensures
            r == self.spec_code(),
    {
        match self {
            NotificationStatus::Pending => 0,
            NotificationStatus::Sent => 1,
            NotificationStatus::Read => 2,
            NotificationStatus::Failed => 3,
        }
    }

    /// The status a storage code denotes; codes outside the known range
    /// denote none.
    pub fn from_code(v: i8) -> (r: Option<NotificationStatus>)
        ensures
            r matches Some(s) ==> s.spec_code() == v,
            r is None <==> !(0 <= v <= 3),
    {
        match v {
            0 => Some(NotificationStatus::Pending),
            1 => Some(NotificationStatus::Sent),
            2 => Some(NotificationStatus::Read),
            3 => Some(NotificationStatus::Failed),
            _ => None,
        }
    }
}

/// The channel a notification goes out on, stored as a signed byte.
#[derive(Clone, Copy, Debug, PartialEq, Eq, Structural, Default)]
pub enum NotificationType {
    #[default]
    InApp,
    Whatsapp,
    Email,
    SMS,
    Push,
}

impl NotificationType {
    /// The storage code of this channel.
    pub open spec fn spec_code(&self) -> i8 {
        match self {
            NotificationType::InApp => 0,
            NotificationType::Whatsapp => 1,
            NotificationType::Email => 2,
            NotificationType::SMS => 3,
            NotificationType::Push => 4,
        }
    }

    /// The storage code of this channel.
    pub fn code(&self) -> (r: i8)
        ensures
            r == self.spec_code(),
    {
        match self {
            NotificationType::InApp => 0,
            NotificationType::Whatsapp => 1,
            NotificationType::Email => 2,
            NotificationType::SMS => 3,
            NotificationType::Push => 4,
        }
    }

    /// The channel a storage code denotes; codes outside the known range
    /// denote none.
    pub fn from_code(v: i8) -> (r: Option<NotificationType>)
        ensures
            r matches Some(c) ==> c.spec_code() == v,
            r is None <==> !(0 <= v <= 4),
    {
        match v {
            0 => Some(NotificationType::InApp),
            1 => Some(NotificationType::Whatsapp),
            2 => Some(NotificationType::Email),
            3 => Some(NotificationType::SMS),
            4 => Some(NotificationType::Push),
            _ => None,
        }
    }
}

/// What a notification reports, stored as a 32-bit integer.
#[derive(Clone, Copy, Debug, PartialEq, Eq, Structural, Default)]
pub enum NotificationEvent {
    #[default]
    AdminMessage,
}

impl NotificationEvent {
    /// The storage code of this event.
    pub open spec fn spec_code(&self) -> i32 {
        match self {
            NotificationEvent::AdminMessage => 0,
        }
    }

    /// The storage code of this event.
    pub fn code(&self) -> (r: i32)
        ensures
            r == self.spec_code(),
    {
        match self {
            NotificationEvent::AdminMessage => 0,
        }
    }

    /// The event a storage code denotes; codes outside the known range
    /// denote none.
    pub fn from_code(v: i32) -> (r: Option<NotificationEvent>)
        ensures
            r matches Some(e) ==> e.spec_code() == v,
            r is None <==> !(v == 0),
    {
        if v == 0 {
            Some(NotificationEvent::AdminMessage)
        } else {
            None
        }
    }
}

/// How urgently a notification should be handled, stored as a 32-bit
/// integer.
#[derive(Clone, Copy, Debug, PartialEq, Eq, Structural, Default)]
pub enum NotificationPriority {
    #[default]
    Low,
    Medium,
    High,
    Critical,
}

impl NotificationPriority {
    /// The storage code of this priority.
    pub open spec fn spec_code(&self) -> i32 {
        match self {
            NotificationPriority::Low => 0,
            NotificationPriority::Medium => 1,
            NotificationPriority::High => 2,
            NotificationPriority::Critical => 3,
        }
    }

    /// The storage code of this priority.
    pub fn code(&self) -> (r: i32)
        ensures
            r == self.spec_code(),
    {
        match self {
            NotificationPriority::Low => 0,
            NotificationPriority::Medium => 1,
            NotificationPriority::High => 2,
            NotificationPriority::Critical => 3,
        }
    }

    /// The priority a storage code denotes; codes outside the known range
    /// denote none.
    pub fn from_code(v: i32) -> (r: Option<NotificationPriority>)
        ensures
            r matches Some(p) ==> p.spec_code() == v,
            r is None <==> !(0 <= v <= 3),
    {
        match v {
            0 => Some(NotificationPriority::Low),
            1 => Some(NotificationPriority::Medium),
            2 => Some(NotificationPriority::High),
            3 => Some(NotificationPriority::Critical),
            _ => None,
        }
    }
}

/// Whether an account or contact has been verified, stored as a signed
/// byte.
#[derive(Clone, Copy, Debug, PartialEq, Eq, Structural)]
pub enum VerificationStatus {
    Unverified,
    Verified,
    Locked,
    Suspended,
    OnDeletion,
}

impl VerificationStatus {
    /// The storage code of this status.
    pub open spec fn spec_code(&self) -> i8 {
        match self {
            VerificationStatus::Unverified => 0,
            VerificationStatus::Verified => 1,
            VerificationStatus::Locked => 2,
            VerificationStatus::Suspended => 3,
            VerificationStatus::OnDeletion => 4,
        }
    }

    /// The storage code of this status.
    pub fn code(&self) -> (r: i8)
        ensures
            r == self.spec_code(),
    {
        match self {
            VerificationStatus::Unverified => 0,
            VerificationStatus::Verified => 1,
            VerificationStatus::Locked => 2,
            VerificationStatus::Suspended => 3,
            VerificationStatus::OnDeletion => 4,
        }
    }

    /// Whether this status is stored as the given code.
    pub fn matches_code(&self, other: i8) -> (r: bool)
        ensures
            r == (self.spec_code() == other),
    {
        self.code() == other
    }
}

/// Whether a contact belongs to personal or work life, stored as a
/// signed byte.
#[derive(Clone, Copy, Debug, PartialEq, Eq, Structural)]
pub enum ContactType {
    Personal,
    Work,
}

impl ContactType {
    /// The storage code of this contact type.
    pub open spec fn spec_code(&self) -> i8 {
        match self {
            ContactType::Personal => 0,
            ContactType::Work => 1,
        }
    }

    /// The storage code of this contact type.
    pub fn code(&self) -> (r: i8)
        ensures
            r == self.spec_code(),
    {
        match self {
            ContactType::Personal => 0,
            ContactType::Work => 1,
        }
    }

    /// Whether this contact type is stored as the given code.
    pub fn matches_code(&self, other: i8) -> (r: bool)
        ensures
            r == (self.spec_code() == other),
    {
        self.code() == other
    }
}

} // verus!
