//! Applications: the clients of the service.

use vstd::prelude::*;
use crate::models::app_key::{AppKey, NewAppKey, generate_key, is_identifier, preview_of};
use crate::models::group::{CreateGroup, Group};

verus! {

/// A stored application.
#[derive(Debug, Clone)]
pub struct App {
    pub id: i32,
    pub client_id: String,
}

/// An application that is about to be stored.
#[derive(Debug)]
pub struct NewApp {
    pub client_id: String,
}

impl App {
    /// An application under a client id that was not used before.
    pub fn new() -> (out: NewApp)
        ensures
            is_identifier(out.client_id@),
    {
        NewApp { client_id: generate_key() }
    }

    /// A new group of this application.
    pub fn create_group(&self) -> (out: CreateGroup)
        ensures
            out == (CreateGroup { app_id: self.id }),
    {
        Group::new(self.id)
    }

    /// A new key of this application.
    pub fn create_key(&self) -> (out: NewAppKey)
        ensures
            out.app_id == self.id,
            is_identifier(out.key@),
            out.key_preview@ == preview_of(out.key@),
    {
        AppKey::new(self.id)
    }
}

} // verus!
