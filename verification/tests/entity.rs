//! Folding events into an entity.

use occur::revision::{Convert, OldOrNew};
use occur::{Entity, Event, Revision};

#[derive(Clone, Copy, Hash, PartialEq, Eq, Debug)]
pub struct UserId(pub u32);

#[derive(Debug, Clone, PartialEq, Eq)]
pub enum UserEvent {
    Created { name: String, is_admin: bool },
    Renamed { new_name: String },
    Befriended { user: UserId },
    PromotedToAdmin { by: UserId },
    Deactivated { reason: String },
}

impl Revision for UserEvent {
    type Value = (&'static str, u8);

    fn revision(&self) -> Self::Value {
        match self {
            UserEvent::Created { .. } => ("Created", 0),
            UserEvent::Renamed { .. } => ("Renamed", 0),
            UserEvent::Befriended { .. } => ("Befriended", 0),
            UserEvent::PromotedToAdmin { .. } => ("PromotedToAdmin", 0),
            UserEvent::Deactivated { .. } => ("Deactivated", 1),
        }
    }

    fn revision_set() -> Vec<Self::Value> {
        vec![
            ("Created", 0),
            ("Renamed", 0),
            ("Befriended", 0),
            ("PromotedToAdmin", 0),
            ("Deactivated", 1),
        ]
    }
}

impl Event for UserEvent {
    type StreamId = UserId;
    type OldRevision = OldUserRevision;
}

#[allow(non_camel_case_types)]
#[derive(Debug, Clone, PartialEq, Eq)]
pub enum OldUserRevision {
    Deactivated_V0,
}

impl Revision for OldUserRevision {
    type Value = (&'static str, u8);

    fn revision(&self) -> Self::Value {
        match self {
            OldUserRevision::Deactivated_V0 => ("Deactivated", 0),
        }
    }

    fn revision_set() -> Vec<Self::Value> {
        vec![("Deactivated", 0)]
    }
}

impl Convert for OldUserRevision {
    type Event = UserEvent;

    fn convert(self) -> OldOrNew<UserEvent> {
        match self {
            OldUserRevision::Deactivated_V0 => {
                OldOrNew::New(UserEvent::Deactivated { reason: "".to_owned() })
            }
        }
    }
}

#[derive(Clone, Debug, PartialEq, Eq)]
pub struct UserEntity {
    pub id: UserId,
    pub name: String,
    pub is_admin: bool,
    pub promoted_to_admin_by: Option<UserId>,
    pub friends: Vec<UserId>,
    pub is_deactivated: bool,
    pub deactivation_reason: Option<String>,
}

impl Entity<UserEvent> for UserEntity {
    fn new(id: UserId, event: UserEvent) -> Option<Self> {
        match event {
            UserEvent::Created { name, is_admin } => Some(UserEntity {
                id,
                name,
                is_admin,
                promoted_to_admin_by: None,
                friends: Vec::default(),
                is_deactivated: false,
                deactivation_reason: None,
            }),
            _ => None,
        }
    }

    fn fold(mut self, event: UserEvent) -> Self {
        match event {
            UserEvent::Created { .. } => self,
            UserEvent::Renamed { new_name } => UserEntity { name: new_name, ..self },
            UserEvent::Befriended { user } => {
                if !self.friends.contains(&user) {
                    self.friends.push(user);
                }
                self
            }
            UserEvent::PromotedToAdmin { by: admin_id } => {
                if !self.is_admin {
                    self.is_admin = true;
                    self.promoted_to_admin_by = Some(admin_id);
                }
                self
            }
            UserEvent::Deactivated { reason } => {
                if !self.is_deactivated {
                    self.is_deactivated = true;
                    self.deactivation_reason = Some(reason);
                }
                self
            }
        }
    }
}

#[test]
fn new_entity_with_non_creation_event_returns_none() {
    let admin = UserEntity::new(
        UserId(42),
        UserEvent::Renamed { new_name: "admin".to_owned() },
    );

    assert!(matches!(admin, None));
}

#[test]
fn new_entity() {
    let admin = UserEntity::new(
        UserId(42),
        UserEvent::Created { name: "admin".to_owned(), is_admin: true },
    );

    assert_eq!(
        admin,
        Some(UserEntity {
            id: UserId(42),
            name: "admin".to_owned(),
            is_admin: true,
            promoted_to_admin_by: None,
            friends: Vec::default(),
            is_deactivated: false,
            deactivation_reason: None,
        })
    );

    let admin = admin.unwrap();

    // a second creation event is ignored
    let next_admin = admin.clone().fold(UserEvent::Created {
        name: "another_user".to_owned(),
        is_admin: false,
    });

    assert_eq!(next_admin, admin);
}
