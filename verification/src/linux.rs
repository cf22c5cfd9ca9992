//! Stub back end for platforms without notification support: every
//! operation fails with the same fixed error, so a host application can
//! degrade gracefully instead of aborting.

use vstd::prelude::*;

use crate::error::Error;
use crate::notify::NotifyBuilder;
use crate::notify::NotifyCategory;

verus! {

/// A stub handle; it only remembers its id.
#[derive(Debug)]
pub struct NotifyHandle {
    pub id: String,
}

impl NotifyHandle {
    /// The notification id.
    pub fn get_id(&self) -> (r: String)
        ensures
            r@ == self.id@,
    {
        self.id.clone()
    }

    /// Closing is unsupported here.
    pub fn close(&self) -> (r: Result<(), Error>)
        ensures
            r matches Err(e) && e matches Error::NotSupported,
    {
        Err(Error::NotSupported)
    }
}

/// The stub manager: it carries no state and supports no operation.
#[derive(Debug)]
pub struct NotifyManager {}

impl NotifyManager {
    /// A stub manager.
    pub fn new_() -> (r: Self) {
        NotifyManager {  }
    }

    /// Creation always succeeds; the manager then fails every operation.
    pub fn try_new(bundle_id: &str, category_identifier: Option<&str>) -> (r: Result<Self, Error>)
        ensures
            r is Ok,
    {
        let _ = bundle_id;
        let _ = category_identifier;
        Ok(Self::new_())
    }

    /// Unsupported on this back end.
    pub fn get_notification_permission_state(&self) -> (r: Result<bool, Error>)
        ensures
            r matches Err(e) && e matches Error::NotSupported,
    {
        Err(Error::NotSupported)
    }

    /// Unsupported on this back end.
    pub fn first_time_ask_for_notification_permission(&self) -> (r: Result<bool, Error>)
        ensures
            r matches Err(e) && e matches Error::NotSupported,
    {
        Err(Error::NotSupported)
    }

    /// Unsupported on this back end.
    pub fn register(&self, categories: Vec<NotifyCategory>) -> (r: Result<(), Error>)
        ensures
            r matches Err(e) && e matches Error::NotSupported,
    {
        let _ = categories;
        Err(Error::NotSupported)
    }

    /// Unsupported on this back end.
    pub fn remove_all_delivered_notifications(&self) -> (r: Result<(), Error>)
        ensures
            r matches Err(e) && e matches Error::NotSupported,
    {
        Err(Error::NotSupported)
    }

    /// Unsupported on this back end.
    pub fn remove_delivered_notifications(&self, ids: Vec<&str>) -> (r: Result<(), Error>)
        ensures
            r matches Err(e) && e matches Error::NotSupported,
    {
        let _ = ids;
        Err(Error::NotSupported)
    }

    /// Unsupported on this back end.
    pub fn get_active_notifications(&self) -> (r: Result<Vec<NotifyHandle>, Error>)
        ensures
            r matches Err(e) && e matches Error::NotSupported,
    {
        Err(Error::NotSupported)
    }

    /// Unsupported on this back end.
    pub fn send(&self, builder: NotifyBuilder) -> (r: Result<NotifyHandle, Error>)
        ensures
            r matches Err(e) && e matches Error::NotSupported,
    {
        let _ = builder;
        Err(Error::NotSupported)
    }
}

} // verus!
