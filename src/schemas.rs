use vstd::prelude::*;

verus! {

/// Gender of a contact.
#[derive(Clone, Copy, Debug, PartialEq, Eq, Structural)]
pub enum ContactGender {
    Unknown,
    Male,
    Female,
}

impl ContactGender {
    /// The integer that stands for this value on the wire.
    pub open spec fn code(self) -> i32 {
        match self {
            ContactGender::Unknown => 0,
            ContactGender::Male => 1,
            ContactGender::Female => 2,
        }
    }

    /// The wire integer of this value.
    pub fn to_i32(&self) -> (r: i32)
        ensures
            r == self.code(),
    {
        match self {
            ContactGender::Unknown => 0,
            ContactGender::Male => 1,
            ContactGender::Female => 2,
        }
    }

    /// The value that a wire integer stands for, if any.
    pub fn from_i32(v: i32) -> (r: Option<ContactGender>)
        ensures
            r matches Some(t) ==> t.code() == v,
            r is None ==> forall|t: ContactGender| #[trigger] t.code() != v,
    {
        if v == 0 {
            Some(ContactGender::Unknown)
        } else if v == 1 {
            Some(ContactGender::Male)
        } else if v == 2 {
            Some(ContactGender::Female)
        } else {
            None
        }
    }
}

/// Kind of account behind a contact.
#[derive(Clone, Copy, Debug, PartialEq, Eq, Structural)]
pub enum ContactType {
    Unknown,
    Individual,
    Official,
    Corporation,
}

impl ContactType {
    /// The integer that stands for this value on the wire.
    pub open spec fn code(self) -> i32 {
        match self {
            ContactType::Unknown => 0,
            ContactType::Individual => 1,
            ContactType::Official => 2,
            ContactType::Corporation => 3,
        }
    }

    /// The wire integer of this value.
    pub fn to_i32(&self) -> (r: i32)
        ensures
            r == self.code(),
    {
        match self {
            ContactType::Unknown => 0,
            ContactType::Individual => 1,
            ContactType::Official => 2,
            ContactType::Corporation => 3,
        }
    }

    /// The value that a wire integer stands for, if any.
    pub fn from_i32(v: i32) -> (r: Option<ContactType>)
        ensures
            r matches Some(t) ==> t.code() == v,
            r is None ==> forall|t: ContactType| #[trigger] t.code() != v,
    {
        if v == 0 {
            Some(ContactType::Unknown)
        } else if v == 1 {
            Some(ContactType::Individual)
        } else if v == 2 {
            Some(ContactType::Official)
        } else if v == 3 {
            Some(ContactType::Corporation)
        } else {
            None
        }
    }
}

/// Progress of a login QR-code scan.
#[derive(Clone, Copy, Debug, PartialEq, Eq, Structural)]
pub enum ScanStatus {
    Unknown,
    Cancel,
    Waiting,
    Scanned,
    Confirmed,
    Timeout,
}

impl ScanStatus {
    /// The integer that stands for this value on the wire.
    pub open spec fn code(self) -> i32 {
        match self {
            ScanStatus::Unknown => 0,
            ScanStatus::Cancel => 1,
            ScanStatus::Waiting => 2,
            ScanStatus::Scanned => 3,
            ScanStatus::Confirmed => 4,
            ScanStatus::Timeout => 5,
        }
    }

    /// The wire integer of this value.
    pub fn to_i32(&self) -> (r: i32)
        ensures
            r == self.code(),
    {
        match self {
            ScanStatus::Unknown => 0,
            ScanStatus::Cancel => 1,
            ScanStatus::Waiting => 2,
            ScanStatus::Scanned => 3,
            ScanStatus::Confirmed => 4,
            ScanStatus::Timeout => 5,
        }
    }

    /// The value that a wire integer stands for, if any.
    pub fn from_i32(v: i32) -> (r: Option<ScanStatus>)
        ensures
            r matches Some(t) ==> t.code() == v,
            r is None ==> forall|t: ScanStatus| #[trigger] t.code() != v,
    {
        if v == 0 {
            Some(ScanStatus::Unknown)
        } else if v == 1 {
            Some(ScanStatus::Cancel)
        } else if v == 2 {
            Some(ScanStatus::Waiting)
        } else if v == 3 {
            Some(ScanStatus::Scanned)
        } else if v == 4 {
            Some(ScanStatus::Confirmed)
        } else if v == 5 {
            Some(ScanStatus::Timeout)
        } else {
            None
        }
    }
}

/// Direction and state of a friendship request.
#[derive(Clone, Copy, Debug, PartialEq, Eq, Structural)]
pub enum FriendshipType {
    Unknown,
    Confirm,
    Receive,
    Verify,
}

impl FriendshipType {
    /// The integer that stands for this value on the wire.
    pub open spec fn code(self) -> i32 {
        match self {
            FriendshipType::Unknown => 0,
            FriendshipType::Confirm => 1,
            FriendshipType::Receive => 2,
            FriendshipType::Verify => 3,
        }
    }

    /// The wire integer of this value.
    pub fn to_i32(&self) -> (r: i32)
        ensures
            r == self.code(),
    {
        match self {
            FriendshipType::Unknown => 0,
            FriendshipType::Confirm => 1,
            FriendshipType::Receive => 2,
            FriendshipType::Verify => 3,
        }
    }

    /// The value that a wire integer stands for, if any.
    pub fn from_i32(v: i32) -> (r: Option<FriendshipType>)
        ensures
            r matches Some(t) ==> t.code() == v,
            r is None ==> forall|t: FriendshipType| #[trigger] t.code() != v,
    {
        if v == 0 {
            Some(FriendshipType::Unknown)
        } else if v == 1 {
            Some(FriendshipType::Confirm)
        } else if v == 2 {
            Some(FriendshipType::Receive)
        } else if v == 3 {
            Some(FriendshipType::Verify)
        } else {
            None
        }
    }
}

/// Where a friendship request came from.
#[derive(Clone, Copy, Debug, PartialEq, Eq, Structural)]
pub enum FriendshipSceneType {
    Unknown,
    QQ,
    Email,
    Weixin,
    QQtbd,
    Room,
    Phone,
    Card,
    Location,
    Bottle,
    Shaking,
    QRCode,
}

impl FriendshipSceneType {
    /// The integer that stands for this value on the wire.
    pub open spec fn code(self) -> i32 {
        match self {
            FriendshipSceneType::Unknown => 0,
            FriendshipSceneType::QQ => 1,
            FriendshipSceneType::Email => 2,
            FriendshipSceneType::Weixin => 3,
            FriendshipSceneType::QQtbd => 12,
            FriendshipSceneType::Room => 14,
            FriendshipSceneType::Phone => 15,
            FriendshipSceneType::Card => 17,
            FriendshipSceneType::Location => 18,
            FriendshipSceneType::Bottle => 25,
            FriendshipSceneType::Shaking => 29,
            FriendshipSceneType::QRCode => 30,
        }
    }

    /// The wire integer of this value.
    pub fn to_i32(&self) -> (r: i32)
        ensures
            r == self.code(),
    {
        match self {
            FriendshipSceneType::Unknown => 0,
            FriendshipSceneType::QQ => 1,
            FriendshipSceneType::Email => 2,
            FriendshipSceneType::Weixin => 3,
            FriendshipSceneType::QQtbd => 12,
            FriendshipSceneType::Room => 14,
            FriendshipSceneType::Phone => 15,
            FriendshipSceneType::Card => 17,
            FriendshipSceneType::Location => 18,
            FriendshipSceneType::Bottle => 25,
            FriendshipSceneType::Shaking => 29,
            FriendshipSceneType::QRCode => 30,
        }
    }

    /// The value that a wire integer stands for, if any.
    pub fn from_i32(v: i32) -> (r: Option<FriendshipSceneType>)
        ensures
            r matches Some(t) ==> t.code() == v,
            r is None ==> forall|t: FriendshipSceneType| #[trigger] t.code() != v,
    {
        if v == 0 {
            Some(FriendshipSceneType::Unknown)
        } else if v == 1 {
            Some(FriendshipSceneType::QQ)
        } else if v == 2 {
            Some(FriendshipSceneType::Email)
        } else if v == 3 {
            Some(FriendshipSceneType::Weixin)
        } else if v == 12 {
            Some(FriendshipSceneType::QQtbd)
        } else if v == 14 {
            Some(FriendshipSceneType::Room)
        } else if v == 15 {
            Some(FriendshipSceneType::Phone)
        } else if v == 17 {
            Some(FriendshipSceneType::Card)
        } else if v == 18 {
            Some(FriendshipSceneType::Location)
        } else if v == 25 {
            Some(FriendshipSceneType::Bottle)
        } else if v == 29 {
            Some(FriendshipSceneType::Shaking)
        } else if v == 30 {
            Some(FriendshipSceneType::QRCode)
        } else {
            None
        }
    }
}

/// Resolution of an image attachment.
#[derive(Clone, Copy, Debug, PartialEq, Eq, Structural)]
pub enum ImageType {
    Unknown,
    Thumbnail,
    HD,
    Artwork,
}

impl ImageType {
    /// The integer that stands for this value on the wire.
    pub open spec fn code(self) -> i32 {
        match self {
            ImageType::Unknown => 0,
            ImageType::Thumbnail => 1,
            ImageType::HD => 2,
            ImageType::Artwork => 3,
        }
    }

    /// The wire integer of this value.
    pub fn to_i32(&self) -> (r: i32)
        ensures
            r == self.code(),
    {
        match self {
            ImageType::Unknown => 0,
            ImageType::Thumbnail => 1,
            ImageType::HD => 2,
            ImageType::Artwork => 3,
        }
    }

    /// The value that a wire integer stands for, if any.
    pub fn from_i32(v: i32) -> (r: Option<ImageType>)
        ensures
            r matches Some(t) ==> t.code() == v,
            r is None ==> forall|t: ImageType| #[trigger] t.code() != v,
    {
        if v == 0 {
            Some(ImageType::Unknown)
        } else if v == 1 {
            Some(ImageType::Thumbnail)
        } else if v == 2 {
            Some(ImageType::HD)
        } else if v == 3 {
            Some(ImageType::Artwork)
        } else {
            None
        }
    }
}

/// Kind of content a message carries.
#[derive(Clone, Copy, Debug, PartialEq, Eq, Structural)]
pub enum MessageType {
    Unknown,
    Attachment,
    Audio,
    Contact,
    ChatHistory,
    Emoticon,
    Image,
    Text,
    Location,
    MiniProgram,
    GroupNote,
    Transfer,
    RedEnvelope,
    Recalled,
    Url,
    Video,
}

impl MessageType {
    /// The integer that stands for this value on the wire.
    pub open spec fn code(self) -> i32 {
        match self {
            MessageType::Unknown => 0,
            MessageType::Attachment => 1,
            MessageType::Audio => 2,
            MessageType::Contact => 3,
            MessageType::ChatHistory => 4,
            MessageType::Emoticon => 5,
            MessageType::Image => 6,
            MessageType::Text => 7,
            MessageType::Location => 8,
            MessageType::MiniProgram => 9,
            MessageType::GroupNote => 10,
            MessageType::Transfer => 11,
            MessageType::RedEnvelope => 12,
            MessageType::Recalled => 13,
            MessageType::Url => 14,
            MessageType::Video => 15,
        }
    }

    /// The wire integer of this value.
    pub fn to_i32(&self) -> (r: i32)
        ensures
            r == self.code(),
    {
        match self {
            MessageType::Unknown => 0,
            MessageType::Attachment => 1,
            MessageType::Audio => 2,
            MessageType::Contact => 3,
            MessageType::ChatHistory => 4,
            MessageType::Emoticon => 5,
            MessageType::Image => 6,
            MessageType::Text => 7,
            MessageType::Location => 8,
            MessageType::MiniProgram => 9,
            MessageType::GroupNote => 10,
            MessageType::Transfer => 11,
            MessageType::RedEnvelope => 12,
            MessageType::Recalled => 13,
            MessageType::Url => 14,
            MessageType::Video => 15,
        }
    }

    /// The value that a wire integer stands for, if any.
    pub fn from_i32(v: i32) -> (r: Option<MessageType>)
        ensures
            r matches Some(t) ==> t.code() == v,
            r is None ==> forall|t: MessageType| #[trigger] t.code() != v,
    {
        if v == 0 {
            Some(MessageType::Unknown)
        } else if v == 1 {
            Some(MessageType::Attachment)
        } else if v == 2 {
            Some(MessageType::Audio)
        } else if v == 3 {
            Some(MessageType::Contact)
        } else if v == 4 {
            Some(MessageType::ChatHistory)
        } else if v == 5 {
            Some(MessageType::Emoticon)
        } else if v == 6 {
            Some(MessageType::Image)
        } else if v == 7 {
            Some(MessageType::Text)
        } else if v == 8 {
            Some(MessageType::Location)
        } else if v == 9 {
            Some(MessageType::MiniProgram)
        } else if v == 10 {
            Some(MessageType::GroupNote)
        } else if v == 11 {
            Some(MessageType::Transfer)
        } else if v == 12 {
            Some(MessageType::RedEnvelope)
        } else if v == 13 {
            Some(MessageType::Recalled)
        } else if v == 14 {
            Some(MessageType::Url)
        } else if v == 15 {
            Some(MessageType::Video)
        } else {
            None
        }
    }
}

/// Sub-kind of an application message on the wire.
#[derive(Clone, Copy, Debug, PartialEq, Eq, Structural)]
pub enum WechatAppMessageType {
    Text,
    Img,
    Audio,
    Video,
    Url,
    Attach,
    Open,
    Emoji,
    VoiceRemind,
    ScanGood,
    Good,
    Emotion,
    CardTicket,
    RealtimeShareLocation,
    ChatHistory,
    MiniProgram,
    Transfers,
    RedEnvelopes,
    ReaderType,
}

impl WechatAppMessageType {
    /// The integer that stands for this value on the wire.
    pub open spec fn code(self) -> i32 {
        match self {
            WechatAppMessageType::Text => 1,
            WechatAppMessageType::Img => 2,
            WechatAppMessageType::Audio => 3,
            WechatAppMessageType::Video => 4,
            WechatAppMessageType::Url => 5,
            WechatAppMessageType::Attach => 6,
            WechatAppMessageType::Open => 7,
            WechatAppMessageType::Emoji => 8,
            WechatAppMessageType::VoiceRemind => 9,
            WechatAppMessageType::ScanGood => 10,
            WechatAppMessageType::Good => 13,
            WechatAppMessageType::Emotion => 15,
            WechatAppMessageType::CardTicket => 16,
            WechatAppMessageType::RealtimeShareLocation => 17,
            WechatAppMessageType::ChatHistory => 19,
            WechatAppMessageType::MiniProgram => 33,
            WechatAppMessageType::Transfers => 2000,
            WechatAppMessageType::RedEnvelopes => 2001,
            WechatAppMessageType::ReaderType => 100001,
        }
    }

    /// The wire integer of this value.
    pub fn to_i32(&self) -> (r: i32)
        ensures
            r == self.code(),
    {
        match self {
            WechatAppMessageType::Text => 1,
            WechatAppMessageType::Img => 2,
            WechatAppMessageType::Audio => 3,
            WechatAppMessageType::Video => 4,
            WechatAppMessageType::Url => 5,
            WechatAppMessageType::Attach => 6,
            WechatAppMessageType::Open => 7,
            WechatAppMessageType::Emoji => 8,
            WechatAppMessageType::VoiceRemind => 9,
            WechatAppMessageType::ScanGood => 10,
            WechatAppMessageType::Good => 13,
            WechatAppMessageType::Emotion => 15,
            WechatAppMessageType::CardTicket => 16,
            WechatAppMessageType::RealtimeShareLocation => 17,
            WechatAppMessageType::ChatHistory => 19,
            WechatAppMessageType::MiniProgram => 33,
            WechatAppMessageType::Transfers => 2000,
            WechatAppMessageType::RedEnvelopes => 2001,
            WechatAppMessageType::ReaderType => 100001,
        }
    }

    /// The value that a wire integer stands for, if any.
    pub fn from_i32(v: i32) -> (r: Option<WechatAppMessageType>)
        ensures
            r matches Some(t) ==> t.code() == v,
            r is None ==> forall|t: WechatAppMessageType| #[trigger] t.code() != v,
    {
        if v == 1 {
            Some(WechatAppMessageType::Text)
        } else if v == 2 {
            Some(WechatAppMessageType::Img)
        } else if v == 3 {
            Some(WechatAppMessageType::Audio)
        } else if v == 4 {
            Some(WechatAppMessageType::Video)
        } else if v == 5 {
            Some(WechatAppMessageType::Url)
        } else if v == 6 {
            Some(WechatAppMessageType::Attach)
        } else if v == 7 {
            Some(WechatAppMessageType::Open)
        } else if v == 8 {
            Some(WechatAppMessageType::Emoji)
        } else if v == 9 {
            Some(WechatAppMessageType::VoiceRemind)
        } else if v == 10 {
            Some(WechatAppMessageType::ScanGood)
        } else if v == 13 {
            Some(WechatAppMessageType::Good)
        } else if v == 15 {
            Some(WechatAppMessageType::Emotion)
        } else if v == 16 {
            Some(WechatAppMessageType::CardTicket)
        } else if v == 17 {
            Some(WechatAppMessageType::RealtimeShareLocation)
        } else if v == 19 {
            Some(WechatAppMessageType::ChatHistory)
        } else if v == 33 {
            Some(WechatAppMessageType::MiniProgram)
        } else if v == 2000 {
            Some(WechatAppMessageType::Transfers)
        } else if v == 2001 {
            Some(WechatAppMessageType::RedEnvelopes)
        } else if v == 100001 {
            Some(WechatAppMessageType::ReaderType)
        } else {
            None
        }
    }
}

/// Raw message kind on the wire.
#[derive(Clone, Copy, Debug, PartialEq, Eq, Structural)]
pub enum WechatMessageType {
    Text,
    Image,
    Voice,
    VerifyMsg,
    PossibleFriendMsg,
    ShareCard,
    Video,
    Emoticon,
    Location,
    App,
    VoipMsg,
    StatusNotify,
    VoipNotify,
    VoipInvite,
    MicroVideo,
    Transfer,
    RedEnvelope,
    MiniProgram,
    GroupInvite,
    File,
    SysNotice,
    Sys,
    Recalled,
}

impl WechatMessageType {
    /// The integer that stands for this value on the wire.
    pub open spec fn code(self) -> i32 {
        match self {
            WechatMessageType::Text => 1,
            WechatMessageType::Image => 3,
            WechatMessageType::Voice => 34,
            WechatMessageType::VerifyMsg => 37,
            WechatMessageType::PossibleFriendMsg => 40,
            WechatMessageType::ShareCard => 42,
            WechatMessageType::Video => 43,
            WechatMessageType::Emoticon => 47,
            WechatMessageType::Location => 48,
            WechatMessageType::App => 49,
            WechatMessageType::VoipMsg => 50,
            WechatMessageType::StatusNotify => 51,
            WechatMessageType::VoipNotify => 52,
            WechatMessageType::VoipInvite => 53,
            WechatMessageType::MicroVideo => 62,
            WechatMessageType::Transfer => 2000,
            WechatMessageType::RedEnvelope => 2001,
            WechatMessageType::MiniProgram => 2002,
            WechatMessageType::GroupInvite => 2003,
            WechatMessageType::File => 2004,
            WechatMessageType::SysNotice => 9999,
            WechatMessageType::Sys => 10000,
            WechatMessageType::Recalled => 10002,
        }
    }

    /// The wire integer of this value.
    pub fn to_i32(&self) -> (r: i32)
        ensures
            r == self.code(),
    {
        match self {
            WechatMessageType::Text => 1,
            WechatMessageType::Image => 3,
            WechatMessageType::Voice => 34,
            WechatMessageType::VerifyMsg => 37,
            WechatMessageType::PossibleFriendMsg => 40,
            WechatMessageType::ShareCard => 42,
            WechatMessageType::Video => 43,
            WechatMessageType::Emoticon => 47,
            WechatMessageType::Location => 48,
            WechatMessageType::App => 49,
            WechatMessageType::VoipMsg => 50,
            WechatMessageType::StatusNotify => 51,
            WechatMessageType::VoipNotify => 52,
            WechatMessageType::VoipInvite => 53,
            WechatMessageType::MicroVideo => 62,
            WechatMessageType::Transfer => 2000,
            WechatMessageType::RedEnvelope => 2001,
            WechatMessageType::MiniProgram => 2002,
            WechatMessageType::GroupInvite => 2003,
            WechatMessageType::File => 2004,
            WechatMessageType::SysNotice => 9999,
            WechatMessageType::Sys => 10000,
            WechatMessageType::Recalled => 10002,
        }
    }

    /// The value that a wire integer stands for, if any.
    pub fn from_i32(v: i32) -> (r: Option<WechatMessageType>)
        ensures
            r matches Some(t) ==> t.code() == v,
            r is None ==> forall|t: WechatMessageType| #[trigger] t.code() != v,
    {
        if v == 1 {
            Some(WechatMessageType::Text)
        } else if v == 3 {
            Some(WechatMessageType::Image)
        } else if v == 34 {
            Some(WechatMessageType::Voice)
        } else if v == 37 {
            Some(WechatMessageType::VerifyMsg)
        } else if v == 40 {
            Some(WechatMessageType::PossibleFriendMsg)
        } else if v == 42 {
            Some(WechatMessageType::ShareCard)
        } else if v == 43 {
            Some(WechatMessageType::Video)
        } else if v == 47 {
            Some(WechatMessageType::Emoticon)
        } else if v == 48 {
            Some(WechatMessageType::Location)
        } else if v == 49 {
            Some(WechatMessageType::App)
        } else if v == 50 {
            Some(WechatMessageType::VoipMsg)
        } else if v == 51 {
            Some(WechatMessageType::StatusNotify)
        } else if v == 52 {
            Some(WechatMessageType::VoipNotify)
        } else if v == 53 {
            Some(WechatMessageType::VoipInvite)
        } else if v == 62 {
            Some(WechatMessageType::MicroVideo)
        } else if v == 2000 {
            Some(WechatMessageType::Transfer)
        } else if v == 2001 {
            Some(WechatMessageType::RedEnvelope)
        } else if v == 2002 {
            Some(WechatMessageType::MiniProgram)
        } else if v == 2003 {
            Some(WechatMessageType::GroupInvite)
        } else if v == 2004 {
            Some(WechatMessageType::File)
        } else if v == 9999 {
            Some(WechatMessageType::SysNotice)
        } else if v == 10000 {
            Some(WechatMessageType::Sys)
        } else if v == 10002 {
            Some(WechatMessageType::Recalled)
        } else {
            None
        }
    }
}

/// Kind of cached payload named by a dirty signal.
#[derive(Clone, Copy, Debug, PartialEq, Eq, Structural)]
pub enum PayloadType {
    Unknown,
    Message,
    Contact,
    Room,
    RoomMember,
    Friendship,
}

impl PayloadType {
    /// The integer that stands for this value on the wire.
    pub open spec fn code(self) -> i32 {
        match self {
            PayloadType::Unknown => 0,
            PayloadType::Message => 1,
            PayloadType::Contact => 2,
            PayloadType::Room => 3,
            PayloadType::RoomMember => 4,
            PayloadType::Friendship => 5,
        }
    }

    /// The wire integer of this value.
    pub fn to_i32(&self) -> (r: i32)
        ensures
            r == self.code(),
    {
        match self {
            PayloadType::Unknown => 0,
            PayloadType::Message => 1,
            PayloadType::Contact => 2,
            PayloadType::Room => 3,
            PayloadType::RoomMember => 4,
            PayloadType::Friendship => 5,
        }
    }

    /// The value that a wire integer stands for, if any.
    pub fn from_i32(v: i32) -> (r: Option<PayloadType>)
        ensures
            r matches Some(t) ==> t.code() == v,
            r is None ==> forall|t: PayloadType| #[trigger] t.code() != v,
    {
        if v == 0 {
            Some(PayloadType::Unknown)
        } else if v == 1 {
            Some(PayloadType::Message)
        } else if v == 2 {
            Some(PayloadType::Contact)
        } else if v == 3 {
            Some(PayloadType::Room)
        } else if v == 4 {
            Some(PayloadType::RoomMember)
        } else if v == 5 {
            Some(PayloadType::Friendship)
        } else {
            None
        }
    }
}
/// Everything known about a contact.
#[derive(Clone, Debug)]
pub struct ContactPayload {
    pub id: String,
    pub gender: ContactGender,
    pub contact_type: ContactType,
    pub name: String,
    pub avatar: String,
    pub address: String,
    pub alias: String,
    pub city: String,
    pub friend: bool,
    pub province: String,
    pub signature: String,
    pub star: bool,
    pub weixin: String,
    pub corporation: String,
    pub title: String,
    pub description: String,
    pub coworker: bool,
    pub phone: Vec<String>,
}

/// Everything known about a friendship request.
#[derive(Clone, Debug)]
pub struct FriendshipPayload {
    pub id: String,
    pub contact_id: String,
    pub hello: String,
    pub timestamp: u64,
    pub scene: FriendshipSceneType,
    pub stranger: String,
    pub ticket: String,
    pub friendship_type: FriendshipType,
}

/// How a friendship search names the person looked for.
#[derive(Clone, Debug)]
pub struct FriendshipSearchQueryFilter {
    pub phone: Option<String>,
    pub weixin: Option<String>,
}

/// Everything known about a message.
#[derive(Clone, Debug)]
pub struct MessagePayload {
    pub id: String,
    pub filename: String,
    pub text: String,
    pub timestamp: u64,
    pub message_type: MessageType,
    pub from_id: String,
    pub mention_id_list: Vec<String>,
    pub room_id: String,
    pub to_id: String,
}

/// A mini program shared in a message.
#[derive(Clone, Debug)]
pub struct MiniProgramPayload {
    pub appid: Option<String>,
    pub description: Option<String>,
    pub page_path: Option<String>,
    pub icon_url: Option<String>,
    pub share_id: Option<String>,
    pub thumb_url: Option<String>,
    pub title: Option<String>,
    pub username: Option<String>,
    pub thumb_key: Option<String>,
}

/// Everything known about a room.
#[derive(Clone, Debug)]
pub struct RoomPayload {
    pub id: String,
    pub topic: String,
    pub avatar: String,
    pub member_id_list: Vec<String>,
    pub owner_id: String,
    pub admin_id_list: Vec<String>,
}

/// A contact as seen inside one room.
#[derive(Clone, Debug)]
pub struct RoomMemberPayload {
    pub id: String,
    pub room_alias: String,
    pub inviter_id: String,
    pub avatar: String,
    pub name: String,
}

/// Everything known about an invitation to a room.
#[derive(Clone, Debug)]
pub struct RoomInvitationPayload {
    pub id: String,
    pub inviter_id: String,
    pub topic: String,
    pub avatar: String,
    pub invitation: String,
    pub member_count: u32,
    pub member_id_list: Vec<String>,
    pub timestamp: u64,
    pub receiver_id: String,
}

/// A link shared in a message.
#[derive(Clone, Debug)]
pub struct UrlLinkPayload {
    pub description: Option<String>,
    pub thumbnail_url: Option<String>,
    pub title: String,
    pub url: String,
}

} // verus!
