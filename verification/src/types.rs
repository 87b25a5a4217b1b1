//! The data types exchanged with the cloud and with command handlers.

use crate::adaptive_card::AdaptiveCard;
use crate::utils::str_eq;
use std::marker::PhantomData;
use vstd::prelude::*;

verus! {

/// The request that registers a user with a transport server.
#[derive(Debug, Clone, PartialEq, Eq)]
pub struct Register {
    pub user_id: u16,
    pub groups: Vec<String>,
}

/// The answer to a registration: the URL of the realtime endpoint.
#[derive(Debug, Clone, PartialEq, Eq)]
pub struct RegisterResponse {
    pub url: String,
}

/// The request that publishes a message to a group.
#[derive(Debug, Clone, PartialEq, Eq)]
pub struct Publish {
    pub user_id: u16,
    pub group: String,
    pub message: String,
}

/// Where a transport server is found and how a client subscribes to it.
#[derive(Debug, Clone, PartialEq, Eq)]
pub struct RemoteTransportWebSocketServer {
    pub host: String,
    pub port: u16,
    pub user_id: u16,
    pub subscription_groups: Vec<String>,
}

/// Name/value bindings of a parsed command, in registration order.
pub type ArgTuple = Vec<(String, String)>;

/// The descriptor of one positional argument of a command.
pub trait Argument: Send + Sync {
    /// The argument's name.
    spec fn spec_name(&self) -> Seq<char>;

    /// Whether a command needs the argument.
    spec fn spec_required(&self) -> bool;

    /// The argument's name.
    fn name(&self) -> (r: &str)
        ensures
            r@ == self.spec_name(),
    ;

    /// Whether a command needs the argument.
    fn is_required(&self) -> (b: bool)
        ensures
            b == self.spec_required(),
    ;
}

/// An argument that a command needs.
pub struct RequiredArgument<T: Send + Sync> {
    pub name: String,
    pub _phantom: PhantomData<T>,
}

impl<T: Send + Sync> RequiredArgument<T> {
    /// A required argument called `name`.
    pub fn new(name: &str) -> (r: Self)
        ensures
            r.name@ == name@,
            r.spec_name() == name@,
            r.spec_required(),
    {
        RequiredArgument { name: name.to_owned(), _phantom: PhantomData }
    }
}

impl<T: Send + Sync> Argument for RequiredArgument<T> {
    open spec fn spec_name(&self) -> Seq<char> {
        self.name@
    }

    open spec fn spec_required(&self) -> bool {
        true
    }

    fn name(&self) -> (r: &str) {
        self.name.as_str()
    }

    fn is_required(&self) -> (b: bool) {
        true
    }
}

/// An argument that a command can do without.
pub struct OptionalArgument<T> {
    pub name: String,
    pub _phantom: PhantomData<T>,
}

impl<T: Send + Sync> OptionalArgument<T> {
    /// An optional argument called `name`.
    pub fn new(name: &str) -> (r: Self)
        ensures
            r.name@ == name@,
            r.spec_name() == name@,
            !r.spec_required(),
    {
        OptionalArgument { name: name.to_owned(), _phantom: PhantomData }
    }
}

impl<T: Send + Sync> Argument for OptionalArgument<T> {
    open spec fn spec_name(&self) -> Seq<char> {
        self.name@
    }

    open spec fn spec_required(&self) -> bool {
        false
    }

    fn name(&self) -> (r: &str) {
        self.name.as_str()
    }

    fn is_required(&self) -> (b: bool) {
        false
    }
}

/// The envelope of a webhook event around its data.
#[derive(Debug, Clone, PartialEq, Eq)]
pub struct Response<T> {
    pub id: String,
    pub name: String,
    pub target_url: String,
    pub resource: String,
    pub event: String,
    pub created: String,
    pub actor_id: String,
    pub data: T,
}

/// The data of a message event.
#[derive(Debug, PartialEq, Eq)]
pub struct MessageEventResponse {
    pub id: String,
    pub room_id: String,
    pub room_type: String,
    pub person_id: String,
    pub person_email: String,
    pub mentioned_people: Box<[String]>,
    pub created: String,
}

/// A device as the devices API lists it.
#[derive(Debug, Clone, PartialEq, Eq)]
pub struct Device2 {
    pub id: String,
    pub display_name: String,
    pub person_id: String,
    pub org_id: String,
    pub capabilities: Vec<String>,
    pub permissions: Vec<String>,
    pub product: String,
    pub type_field: String,
    pub tags: Vec<String>,
    pub serial: String,
    pub software: String,
    pub primary_sip_url: String,
    pub sip_urls: Vec<String>,
    pub error_codes: Vec<String>,
    pub connection_status: String,
    pub created: String,
    pub first_seen: String,
    pub last_seen: String,
    pub managed_by: String,
}

/// A list of device descriptors.
#[derive(Debug, Clone, PartialEq, Eq)]
pub struct Devices {
    pub items: Vec<Device>,
}

/// The descriptor that registers a device: its identity and, once the cloud
/// has assigned one, the URL of its realtime endpoint.
#[derive(Debug, Clone, PartialEq, Eq)]
pub struct Device {
    pub device_name: String,
    pub device_type: String,
    pub localized_model: String,
    pub model: String,
    pub name: String,
    pub system_name: String,
    pub system_version: String,
    pub web_socket_url: Option<String>,
}

/// The record of a registered device: its identity and the URL of the
/// realtime endpoint that the cloud assigned.
#[derive(Debug, Clone, PartialEq, Eq)]
pub struct DeviceDetails {
    pub device_name: String,
    pub device_type: String,
    pub localized_model: String,
    pub model: String,
    pub name: String,
    pub system_name: String,
    pub system_version: String,
    pub web_socket_url: Option<String>,
}

/// The devices registered under one credential, as the cloud lists them.
#[derive(Debug, Clone, PartialEq, Eq)]
pub struct DevicesDetails {
    pub devices: Vec<DeviceDetails>,
}

/// A room.
#[derive(Debug, Clone, PartialEq, Eq)]
pub struct Room {
    /// The identifier of the room.
    pub id: String,
    /// The name of the room.
    pub title: String,
    /// `direct` for a 1:1 room, `group` for a group room.
    pub room_type: String,
    /// Whether the room is moderated.
    pub is_locked: bool,
    /// The team that the room belongs to.
    pub team_id: Option<String>,
    /// When the room was last active.
    pub last_activity: String,
    /// Who created the room.
    pub creator_id: String,
    /// When the room was created.
    pub created: String,
}

/// The organization that an account belongs to.
#[derive(Debug, Clone, PartialEq, Eq)]
pub struct Organization {
    pub id: String,
    pub display_name: String,
    pub created: String,
}

/// A team that includes the account.
#[derive(Debug, Clone, PartialEq, Eq)]
pub struct Team {
    pub id: String,
    pub name: String,
    pub created: String,
    pub description: Option<String>,
}

/// The links of the service catalog.
#[derive(Debug, Clone, PartialEq, Eq)]
pub struct Catalog {
    pub atlas: String,
    pub broadworks_idp_proxy: String,
    pub client_logs: String,
    pub ecomm: String,
    pub fms: String,
    pub idbroker: String,
    pub idbroker_guest: String,
    pub identity: String,
    pub identity_guest_cs: String,
    pub license: String,
    pub meeting_registry: String,
    pub metrics: String,
    pub oauth_helper: String,
    pub settings_service: String,
    pub u2c: String,
    /// The URL that lists devices.
    pub wdm: String,
    pub web_authentication: String,
    pub webex_appapi_service: String,
}

/// Where an outgoing message goes.
#[derive(Debug, Clone, PartialEq, Eq)]
pub enum Destination {
    /// Into this room.
    RoomId(String),
    /// To a person, by identifier.
    ToPersonId(String),
    /// To a person, by email address.
    ToPersonEmail(String),
}

/// An outgoing message.
#[derive(Debug, Clone, Default, PartialEq)]
pub struct MessageOut {
    /// The message to reply to.
    pub parent_id: Option<String>,
    /// The room of the message.
    pub room_id: Option<String>,
    /// The recipient of a private message, by identifier.
    pub to_person_id: Option<String>,
    /// The recipient of a private message, by email address.
    pub to_person_email: Option<String>,
    /// The message in plain text.
    pub text: Option<String>,
    /// The message in Markdown.
    pub markdown: Option<String>,
    /// The public URL of a file to post.
    pub files: Option<Vec<String>>,
    /// The cards attached to the message.
    pub attachments: Option<Vec<Attachment>>,
}

impl MessageOut {
    /// The outgoing message that repeats `message`: its parent, room,
    /// recipients, texts, files and attachments.
    pub open spec fn of_message(message: Message) -> MessageOut {
        MessageOut {
            parent_id: message.parent_id,
            room_id: message.room_id,
            to_person_id: message.to_person_id,
            to_person_email: message.to_person_email,
            text: message.text,
            markdown: message.markdown,
            files: message.files,
            attachments: message.attachments,
        }
    }
}

impl From<Message> for MessageOut {
    fn from(message: Message) -> (r: MessageOut) {
        MessageOut {
            parent_id: message.parent_id,
            room_id: message.room_id,
            to_person_id: message.to_person_id,
            to_person_email: message.to_person_email,
            text: message.text,
            markdown: message.markdown,
            files: message.files,
            attachments: message.attachments,
        }
    }
}

impl vstd::std_specs::convert::FromSpecImpl<Message> for MessageOut {
    open spec fn obeys_from_spec() -> bool {
        true
    }

    open spec fn from_spec(message: Message) -> MessageOut {
        MessageOut::of_message(message)
    }
}

/// The kinds of room.
#[derive(Debug, Clone, Copy, Default, PartialEq, Eq, Structural)]
pub enum RoomType {
    /// A 1:1 private chat.
    #[default]
    Direct,
    /// A group room.
    Group,
}

/// A message as the cloud reports it.
#[derive(Debug, Clone, Default, PartialEq)]
pub struct Message {
    /// The identifier of the message.
    pub id: Option<String>,
    /// The room of the message.
    pub room_id: Option<String>,
    /// The kind of the room.
    pub room_type: Option<RoomType>,
    /// The recipient of a private message, by identifier.
    pub to_person_id: Option<String>,
    /// The recipient of a private message, by email address.
    pub to_person_email: Option<String>,
    /// The message in plain text.
    pub text: Option<String>,
    /// The message in Markdown.
    pub markdown: Option<String>,
    /// The message in HTML.
    pub html: Option<String>,
    /// The public URLs of the attached files.
    pub files: Option<Vec<String>>,
    /// The author, by identifier.
    pub person_id: Option<String>,
    /// The author, by email address.
    pub person_email: Option<String>,
    /// The people mentioned in the message.
    pub mentioned_people: Option<Vec<String>>,
    /// The groups mentioned in the message.
    pub mentioned_groups: Option<Vec<String>>,
    /// The cards attached to the message.
    pub attachments: Option<Vec<Attachment>>,
    /// When the message was created.
    pub created: Option<String>,
    /// When the message was edited.
    pub updated: Option<String>,
    /// The message at the start of the reply chain.
    pub parent_id: Option<String>,
}

/// Who acted.
#[derive(Debug, Clone, Default, PartialEq, Eq)]
pub struct Actor {
    pub id: String,
    pub object_type: String,
    pub display_name: Option<String>,
    pub org_id: Option<String>,
    pub email_address: Option<String>,
    pub entry_uuid: String,
    pub actor_type: Option<String>,
}

/// The kinds of activity.
#[derive(Debug, Clone, PartialEq, Eq)]
pub enum ActivityType {
    /// A message changed.
    Message(MessageActivity),
    /// A space changed.
    Space(SpaceActivity),
    /// A card was submitted.
    AdaptiveCardSubmit,
    /// A meeting event.
    Locus,
    /// A call event.
    Janus,
    /// Someone started typing.
    StartTyping,
    Highlight,
    /// An activity of no known kind, with the text that named it.
    Unknown(String),
}

/// What happened to a message.
#[derive(Debug, Clone, Copy, PartialEq, Eq, Structural)]
pub enum MessageActivity {
    /// A message was posted.
    Posted,
    /// A message was posted with attachments.
    Shared,
    /// A message was acknowledged.
    Acknowledged,
    /// A message was deleted.
    Deleted,
}

/// What happened to a space.
#[derive(Debug, Clone, Copy, PartialEq, Eq, Structural)]
pub enum SpaceActivity {
    /// A space was created with the bot.
    Created,
    /// The bot was added to a space.
    Joined,
    /// The bot left a space.
    Left,
    /// The space was changed.
    Changed,
    /// A meeting was scheduled.
    MeetingScheduled,
    /// The space became moderated.
    Locked,
    /// The space became unmoderated.
    Unlocked,
    /// A moderator was assigned.
    ModeratorAssigned,
    /// A moderator was unassigned.
    ModeratorUnassigned,
}

impl MessageActivity {
    /// The activity that a verb names.
    pub open spec fn of_verb(s: Seq<char>) -> Result<MessageActivity, ()> {
        if s == "post"@ {
            Ok(MessageActivity::Posted)
        } else if s == "share"@ {
            Ok(MessageActivity::Shared)
        } else if s == "acknowledge"@ {
            Ok(MessageActivity::Acknowledged)
        } else if s == "delete"@ {
            Ok(MessageActivity::Deleted)
        } else {
            Err(())
        }
    }

    /// Whether the activity made a new message.
    pub open spec fn spec_is_created(&self) -> bool {
        *self == MessageActivity::Posted || *self == MessageActivity::Shared
    }

    /// Whether the activity made a new message: it was posted or shared.
    #[must_use]
    pub fn is_created(&self) -> (r: bool)
        ensures
            r == self.spec_is_created(),
    {
        matches!(*self, Self::Posted | Self::Shared)
    }
}

impl TryFrom<&str> for MessageActivity {
    type Error = ();

    fn try_from(s: &str) -> (r: Result<Self, ()>) {
        if str_eq(s, "post") {
            Ok(Self::Posted)
        } else if str_eq(s, "share") {
            Ok(Self::Shared)
        } else if str_eq(s, "acknowledge") {
            Ok(Self::Acknowledged)
        } else if str_eq(s, "delete") {
            Ok(Self::Deleted)
        } else {
            Err(())
        }
    }
}

impl vstd::std_specs::convert::TryFromSpecImpl<&str> for MessageActivity {
    open spec fn obeys_try_from_spec() -> bool {
        true
    }

    open spec fn try_from_spec(s: &str) -> Result<Self, ()> {
        MessageActivity::of_verb(s@)
    }
}

impl SpaceActivity {
    /// The activity that a verb names.
    pub open spec fn of_verb(s: Seq<char>) -> Result<SpaceActivity, ()> {
        if s == "create"@ {
            Ok(SpaceActivity::Created)
        } else if s == "add"@ {
            Ok(SpaceActivity::Joined)
        } else if s == "leave"@ {
            Ok(SpaceActivity::Left)
        } else if s == "lock"@ {
            Ok(SpaceActivity::Locked)
        } else if s == "unlock"@ {
            Ok(SpaceActivity::Unlocked)
        } else if s == "update"@ || s == "assign"@ || s == "unassign"@ {
            Ok(SpaceActivity::Changed)
        } else if s == "schedule"@ {
            Ok(SpaceActivity::MeetingScheduled)
        } else if s == "assignModerator"@ {
            Ok(SpaceActivity::ModeratorAssigned)
        } else if s == "unassignModerator"@ {
            Ok(SpaceActivity::ModeratorUnassigned)
        } else {
            Err(())
        }
    }
}

impl TryFrom<&str> for SpaceActivity {
    type Error = ();

    fn try_from(s: &str) -> (r: Result<Self, ()>) {
        if str_eq(s, "create") {
            Ok(Self::Created)
        } else if str_eq(s, "add") {
            Ok(Self::Joined)
        } else if str_eq(s, "leave") {
            Ok(Self::Left)
        } else if str_eq(s, "lock") {
            Ok(Self::Locked)
        } else if str_eq(s, "unlock") {
            Ok(Self::Unlocked)
        } else if str_eq(s, "update") || str_eq(s, "assign") || str_eq(s, "unassign") {
            Ok(Self::Changed)
        } else if str_eq(s, "schedule") {
            Ok(Self::MeetingScheduled)
        } else if str_eq(s, "assignModerator") {
            Ok(Self::ModeratorAssigned)
        } else if str_eq(s, "unassignModerator") {
            Ok(Self::ModeratorUnassigned)
        } else {
            Err(())
        }
    }
}

impl vstd::std_specs::convert::TryFromSpecImpl<&str> for SpaceActivity {
    open spec fn obeys_try_from_spec() -> bool {
        true
    }

    open spec fn try_from_spec(s: &str) -> Result<Self, ()> {
        SpaceActivity::of_verb(s@)
    }
}

/// An attachment of a message.
#[derive(Debug, Clone, Default, PartialEq)]
pub struct Attachment {
    /// The content type of the attachment.
    pub content_type: String,
    /// The card.
    pub content: AdaptiveCard,
}

/// An action performed on an attachment.
#[derive(Debug, Clone, Default, PartialEq, Eq)]
pub struct AttachmentAction {
    /// The identifier of the action.
    pub id: String,
    /// The type of the action.
    pub action_type: Option<String>,
    /// The message that the attachment belongs to.
    pub message_id: Option<String>,
    /// The inputs of the action: each one's name with its value as JSON text.
    pub inputs: Option<Vec<(String, String)>>,
    /// Who performed the action.
    pub person_id: Option<String>,
    /// The room of the action.
    pub room_id: Option<String>,
    /// When the action was performed.
    pub created: Option<String>,
}

/// A person.
#[derive(Debug, Clone, Default, PartialEq, Eq)]
pub struct Person {
    pub id: String,
    pub emails: Vec<String>,
    pub phone_numbers: Vec<PhoneNumber>,
    pub display_name: String,
    pub nick_name: String,
    pub first_name: String,
    pub last_name: String,
    pub avatar: String,
    pub org_id: String,
    pub created: String,
    pub last_activity: String,
    /// The status of the person, such as `active` or `meeting`.
    pub status: String,
    /// `person`, `bot` or `appuser`.
    pub person_type: String,
}

/// A phone number.
#[derive(Debug, Clone, Default, PartialEq, Eq)]
pub struct PhoneNumber {
    /// The type of the number.
    pub number_type: String,
    /// The number.
    pub value: String,
}

} // verus!
