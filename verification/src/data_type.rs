//! The records that travel between the client and the OpenShock API.
//!
//! Field names and formats follow the API documentation hosted at
//! <https://api.openshock.app/swagger/index.html>. Each record comes with a
//! view, the mathematical value that contracts speak of; how a record is
//! written to and read from JSON is laid down in [`crate::wire`].

use crate::text::str_eq;
use vstd::prelude::*;

verus! {

/// The view of an optional text.
pub open spec fn optional_text_view(text: Option<String>) -> Option<Seq<char>> {
    match text {
        Some(text) => Some(text@),
        None => None,
    }
}

/// The hardware model of a shocker.
#[derive(Debug, Clone, Copy, PartialEq, Eq, Structural)]
pub enum ShockerModel {
    CaiXianlin,
    PetTrainer,
    Petrainer998DR,
}

impl ShockerModel {
    /// The name under which the API knows the model.
    pub open spec fn wire_name(self) -> Seq<char> {
        match self {
            ShockerModel::CaiXianlin => "CaiXianlin"@,
            ShockerModel::PetTrainer => "PetTrainer"@,
            ShockerModel::Petrainer998DR => "Petrainer998DR"@,
        }
    }

    /// The model that the API knows under `name`.
    pub open spec fn of_wire_name(name: Seq<char>) -> Option<ShockerModel> {
        if name == "CaiXianlin"@ {
            Some(ShockerModel::CaiXianlin)
        } else if name == "PetTrainer"@ {
            Some(ShockerModel::PetTrainer)
        } else if name == "Petrainer998DR"@ {
            Some(ShockerModel::Petrainer998DR)
        } else {
            None
        }
    }

    /// The name under which the API knows the model.
    pub fn name(&self) -> (name: &'static str)
        ensures
            name@ == self.wire_name(),
    {
        match self {
            ShockerModel::CaiXianlin => "CaiXianlin",
            ShockerModel::PetTrainer => "PetTrainer",
            ShockerModel::Petrainer998DR => "Petrainer998DR",
        }
    }

    /// The model that the API knows under `name`, if there is one.
    pub fn from_name(name: &str) -> (model: Option<ShockerModel>)
        ensures
            model == ShockerModel::of_wire_name(name@),
    {
        if str_eq(name, "CaiXianlin") {
            Some(ShockerModel::CaiXianlin)
        } else if str_eq(name, "PetTrainer") {
            Some(ShockerModel::PetTrainer)
        } else if str_eq(name, "Petrainer998DR") {
            Some(ShockerModel::Petrainer998DR)
        } else {
            None
        }
    }
}

/// What a control command makes a shocker do.
#[derive(Debug, Clone, Copy, PartialEq, Eq, Structural)]
pub enum ControlType {
    Stop,
    Shock,
    Vibrate,
    Sound,
}

impl ControlType {
    /// The name under which the API knows the kind of command.
    pub open spec fn wire_name(self) -> Seq<char> {
        match self {
            ControlType::Stop => "Stop"@,
            ControlType::Shock => "Shock"@,
            ControlType::Vibrate => "Vibrate"@,
            ControlType::Sound => "Sound"@,
        }
    }

    /// The kind of command that the API knows under `name`.
    pub open spec fn of_wire_name(name: Seq<char>) -> Option<ControlType> {
        if name == "Stop"@ {
            Some(ControlType::Stop)
        } else if name == "Shock"@ {
            Some(ControlType::Shock)
        } else if name == "Vibrate"@ {
            Some(ControlType::Vibrate)
        } else if name == "Sound"@ {
            Some(ControlType::Sound)
        } else {
            None
        }
    }

    /// The name under which the API knows the kind of command.
    pub fn name(&self) -> (name: &'static str)
        ensures
            name@ == self.wire_name(),
    {
        match self {
            ControlType::Stop => "Stop",
            ControlType::Shock => "Shock",
            ControlType::Vibrate => "Vibrate",
            ControlType::Sound => "Sound",
        }
    }

    /// The kind of command that the API knows under `name`, if there is
    /// one.
    pub fn from_name(name: &str) -> (kind: Option<ControlType>)
        ensures
            kind == ControlType::of_wire_name(name@),
    {
        if str_eq(name, "Stop") {
            Some(ControlType::Stop)
        } else if str_eq(name, "Shock") {
            Some(ControlType::Shock)
        } else if str_eq(name, "Vibrate") {
            Some(ControlType::Vibrate)
        } else if str_eq(name, "Sound") {
            Some(ControlType::Sound)
        } else {
            None
        }
    }
}

/// The standing of an account with the service.
#[derive(Debug, Clone, Copy, PartialEq, Eq, Structural)]
pub enum RankType {
    User,
    Support,
    Staff,
    Admin,
    System,
}

impl RankType {
    /// The name under which the API knows the rank.
    pub open spec fn wire_name(self) -> Seq<char> {
        match self {
            RankType::User => "User"@,
            RankType::Support => "Support"@,
            RankType::Staff => "Staff"@,
            RankType::Admin => "Admin"@,
            RankType::System => "System"@,
        }
    }

    /// The rank that the API knows under `name`.
    pub open spec fn of_wire_name(name: Seq<char>) -> Option<RankType> {
        if name == "User"@ {
            Some(RankType::User)
        } else if name == "Support"@ {
            Some(RankType::Support)
        } else if name == "Staff"@ {
            Some(RankType::Staff)
        } else if name == "Admin"@ {
            Some(RankType::Admin)
        } else if name == "System"@ {
            Some(RankType::System)
        } else {
            None
        }
    }

    /// The name under which the API knows the rank.
    pub fn name(&self) -> (name: &'static str)
        ensures
            name@ == self.wire_name(),
    {
        match self {
            RankType::User => "User",
            RankType::Support => "Support",
            RankType::Staff => "Staff",
            RankType::Admin => "Admin",
            RankType::System => "System",
        }
    }

    /// The rank that the API knows under `name`, if there is one.
    pub fn from_name(name: &str) -> (rank: Option<RankType>)
        ensures
            rank == RankType::of_wire_name(name@),
    {
        if str_eq(name, "User") {
            Some(RankType::User)
        } else if str_eq(name, "Support") {
            Some(RankType::Support)
        } else if str_eq(name, "Staff") {
            Some(RankType::Staff)
        } else if str_eq(name, "Admin") {
            Some(RankType::Admin)
        } else if str_eq(name, "System") {
            Some(RankType::System)
        } else {
            None
        }
    }
}

/// Every model is found again under its name, and under no other text.
pub proof fn lemma_shocker_model_names(model: ShockerModel, name: Seq<char>)
    ensures
        ShockerModel::of_wire_name(model.wire_name()) == Some(model),
        ShockerModel::of_wire_name(name) == Some(model) ==> name == model.wire_name(),
{
    reveal_strlit("CaiXianlin");
    reveal_strlit("PetTrainer");
    reveal_strlit("Petrainer998DR");
    assert("CaiXianlin"@.len() == 10 && "PetTrainer"@.len() == 10 && "Petrainer998DR"@.len() == 14);
    assert("CaiXianlin"@[0] == 'C' && "PetTrainer"@[0] == 'P');
}

/// Every kind of command is found again under its name, and under no other
/// text.
pub proof fn lemma_control_type_names(kind: ControlType, name: Seq<char>)
    ensures
        ControlType::of_wire_name(kind.wire_name()) == Some(kind),
        ControlType::of_wire_name(name) == Some(kind) ==> name == kind.wire_name(),
{
    reveal_strlit("Stop");
    reveal_strlit("Shock");
    reveal_strlit("Vibrate");
    reveal_strlit("Sound");
    assert("Stop"@.len() == 4 && "Shock"@.len() == 5 && "Vibrate"@.len() == 7 && "Sound"@.len() == 5);
    assert("Shock"@[1] == 'h' && "Sound"@[1] == 'o');
}

/// Every rank is found again under its name, and under no other text.
pub proof fn lemma_rank_type_names(rank: RankType, name: Seq<char>)
    ensures
        RankType::of_wire_name(rank.wire_name()) == Some(rank),
        RankType::of_wire_name(name) == Some(rank) ==> name == rank.wire_name(),
{
    reveal_strlit("User");
    reveal_strlit("Support");
    reveal_strlit("Staff");
    reveal_strlit("Admin");
    reveal_strlit("System");
    assert("User"@.len() == 4 && "Support"@.len() == 7 && "Staff"@.len() == 5 && "Admin"@.len() == 5
        && "System"@.len() == 6);
    assert("Staff"@[0] == 'S' && "Admin"@[0] == 'A');
}

/// Data about a shocker, such as its id and model.
#[derive(Debug, Clone, PartialEq, Eq)]
pub struct ShockerResponse {
    pub name: Option<String>,
    pub is_paused: bool,
    pub created_on: String,
    pub id: String,
    pub rf_id: u32,
    pub model: ShockerModel,
}

/// The view of a [`ShockerResponse`].
pub struct ShockerResponseView {
    pub name: Option<Seq<char>>,
    pub is_paused: bool,
    pub created_on: Seq<char>,
    pub id: Seq<char>,
    pub rf_id: u32,
    pub model: ShockerModel,
}

impl View for ShockerResponse {
    type V = ShockerResponseView;

    open spec fn view(&self) -> ShockerResponseView {
        ShockerResponseView {
            name: optional_text_view(self.name),
            is_paused: self.is_paused,
            created_on: self.created_on@,
            id: self.id@,
            rf_id: self.rf_id,
            model: self.model,
        }
    }
}

/// The views of a list of shockers, one by one.
pub open spec fn shockers_view(shockers: Seq<ShockerResponse>) -> Seq<ShockerResponseView> {
    shockers.map_values(|shocker: ShockerResponse| shocker@)
}

/// A device that shockers are attached to, as the reply to a request for
/// the list of available shockers names it. The list of shockers may be
/// empty.
#[derive(Debug, Clone, PartialEq, Eq)]
pub struct ListShockersResponse {
    pub shockers: Vec<ShockerResponse>,
    pub id: String,
    pub name: String,
    pub created_on: String,
}

/// The view of a [`ListShockersResponse`].
pub struct ListShockersResponseView {
    pub shockers: Seq<ShockerResponseView>,
    pub id: Seq<char>,
    pub name: Seq<char>,
    pub created_on: Seq<char>,
}

impl View for ListShockersResponse {
    type V = ListShockersResponseView;

    open spec fn view(&self) -> ListShockersResponseView {
        ListShockersResponseView {
            shockers: shockers_view(self.shockers@),
            id: self.id@,
            name: self.name@,
            created_on: self.created_on@,
        }
    }
}

/// The views of a list of devices, one by one.
pub open spec fn devices_view(devices: Seq<ListShockersResponse>) -> Seq<ListShockersResponseView> {
    devices.map_values(|device: ListShockersResponse| device@)
}

/// The envelope in which the API wraps what it answers: a message for the
/// reader and the payload, either of which may be missing.
#[derive(Debug, Clone, PartialEq, Eq)]
pub struct BaseResponse<T> {
    pub message: Option<String>,
    pub data: Option<T>,
}

/// The view of a [`BaseResponse`] whose payload has the view `V`.
pub struct BaseResponseView<V> {
    pub message: Option<Seq<char>>,
    pub data: Option<V>,
}

impl View for BaseResponse<SelfResponse> {
    type V = BaseResponseView<SelfResponseView>;

    open spec fn view(&self) -> BaseResponseView<SelfResponseView> {
        BaseResponseView {
            message: optional_text_view(self.message),
            data: match self.data {
                Some(account) => Some(account@),
                None => None,
            },
        }
    }
}

impl View for BaseResponse<Vec<ListShockersResponse>> {
    type V = BaseResponseView<Seq<ListShockersResponseView>>;

    open spec fn view(&self) -> BaseResponseView<Seq<ListShockersResponseView>> {
        BaseResponseView {
            message: optional_text_view(self.message),
            data: match self.data {
                Some(devices) => Some(devices_view(devices@)),
                None => None,
            },
        }
    }
}

impl View for BaseResponse<String> {
    type V = BaseResponseView<Seq<char>>;

    open spec fn view(&self) -> BaseResponseView<Seq<char>> {
        BaseResponseView {
            message: optional_text_view(self.message),
            data: optional_text_view(self.data),
        }
    }
}

/// One instruction for one shocker.
#[derive(Debug, Clone, PartialEq, Eq)]
pub struct Shock {
    pub id: String,
    pub control_type: ControlType,
    /// minimum of 1 and maximum of 100, measured in percent
    pub intensity: u8,
    /// minimum of 300 and maximum of 30000, measured in ms
    pub duration: u16,
    pub exclusive: bool,
}

/// The view of a [`Shock`].
pub struct ShockView {
    pub id: Seq<char>,
    pub control_type: ControlType,
    pub intensity: u8,
    pub duration: u16,
    pub exclusive: bool,
}

impl ShockView {
    /// Whether the intensity and the duration are within the bounds of the
    /// API: 1 to 100 percent, and 300 to 30000 milliseconds.
    pub open spec fn within_bounds(self) -> bool {
        1 <= self.intensity <= 100 && 300 <= self.duration <= 30000
    }
}

impl View for Shock {
    type V = ShockView;

    open spec fn view(&self) -> ShockView {
        ShockView {
            id: self.id@,
            control_type: self.control_type,
            intensity: self.intensity,
            duration: self.duration,
            exclusive: self.exclusive,
        }
    }
}

/// The views of a list of instructions, one by one.
pub open spec fn shocks_view(shocks: Seq<Shock>) -> Seq<ShockView> {
    shocks.map_values(|shock: Shock| shock@)
}

/// What is sent to control shockers: the instructions, all under the same
/// API token, and the name under which the sender shows up in the log.
#[derive(Debug, Clone, PartialEq, Eq)]
pub struct ControlRequest {
    pub shocks: Vec<Shock>,
    pub custom_name: String,
}

/// The view of a [`ControlRequest`].
pub struct ControlRequestView {
    pub shocks: Seq<ShockView>,
    pub custom_name: Seq<char>,
}

impl ControlRequestView {
    /// Whether the request may be sent: it holds at least one instruction,
    /// and each one is within bounds.
    pub open spec fn sendable(self) -> bool {
        self.shocks.len() >= 1 && forall|i: int|
            0 <= i < self.shocks.len() ==> (#[trigger] self.shocks[i]).within_bounds()
    }
}

impl View for ControlRequest {
    type V = ControlRequestView;

    open spec fn view(&self) -> ControlRequestView {
        ControlRequestView { shocks: shocks_view(self.shocks@), custom_name: self.custom_name@ }
    }
}

/// What the API knows of the account that a token belongs to.
#[derive(Debug, Clone, PartialEq, Eq)]
pub struct SelfResponse {
    pub id: String,
    pub name: Option<String>,
    pub email: Option<String>,
    pub image: Option<String>,
    pub rank: RankType,
}

/// The view of a [`SelfResponse`].
pub struct SelfResponseView {
    pub id: Seq<char>,
    pub name: Option<Seq<char>>,
    pub email: Option<Seq<char>>,
    pub image: Option<Seq<char>>,
    pub rank: RankType,
}

impl View for SelfResponse {
    type V = SelfResponseView;

    open spec fn view(&self) -> SelfResponseView {
        SelfResponseView {
            id: self.id@,
            name: optional_text_view(self.name),
            email: optional_text_view(self.email),
            image: optional_text_view(self.image),
            rank: self.rank,
        }
    }
}

} // verus!
