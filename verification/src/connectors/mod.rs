//! Connectors to the remote calendar services.

pub mod caldav;
pub mod oauth2;

use vstd::prelude::*;
use crate::connectors::oauth2::{InvalidRow, Oauth2Service};

verus! {

/// The services that an integration can be with.
#[derive(Debug, Clone, Copy, PartialEq, Eq, Structural)]
pub enum ServiceType {
    Google(Oauth2Service),
    Outlook(Oauth2Service),
    Apple,
}

impl ServiceType {
    /// The number that stands for the service in storage.
    pub open spec fn row(self) -> i16 {
        match self {
            ServiceType::Google(_) => 1,
            ServiceType::Outlook(_) => 2,
            ServiceType::Apple => 3,
        }
    }

    /// The service that a stored number stands for.
    pub open spec fn of_row(row: i16) -> Result<ServiceType, InvalidRow> {
        if row == 1 {
            Ok(ServiceType::Google(Oauth2Service::Google))
        } else if row == 2 {
            Ok(ServiceType::Outlook(Oauth2Service::Outlook))
        } else if row == 3 {
            Ok(ServiceType::Apple)
        } else {
            Err(InvalidRow { value: row })
        }
    }

    /// The service that a stored number stands for.
    pub fn build(row: i16) -> (out: Result<ServiceType, InvalidRow>)
        ensures
            out == Self::of_row(row),
    {
        if row == 1 {
            Ok(ServiceType::Google(Oauth2Service::Google))
        } else if row == 2 {
            Ok(ServiceType::Outlook(Oauth2Service::Outlook))
        } else if row == 3 {
            Ok(ServiceType::Apple)
        } else {
            Err(InvalidRow { value: row })
        }
    }

    /// The number that stands for the service in storage.
    pub fn to_sql(&self) -> (out: i16)
        ensures
            out == self.row(),
    {
        match self {
            ServiceType::Google(_) => 1,
            ServiceType::Outlook(_) => 2,
            ServiceType::Apple => 3,
        }
    }

    /// The service type of an OAuth2 service.
    pub fn from_oauth2(service: Oauth2Service) -> (out: Self)
        ensures
            out == match service {
                Oauth2Service::Google => ServiceType::Google(service),
                Oauth2Service::Outlook => ServiceType::Outlook(service),
            },
    {
        match service {
            Oauth2Service::Google => ServiceType::Google(service),
            Oauth2Service::Outlook => ServiceType::Outlook(service),
        }
    }
}

/// A service that a stored number stands for is stored as that number, and
/// the service type of an OAuth2 service is read back from its number.
pub proof fn lemma_service_type_round_trip(row: i16, service: Oauth2Service)
    ensures
        ServiceType::of_row(row) matches Ok(stored) ==> stored.row() == row,
        ServiceType::of_row(service.row()) == Ok::<ServiceType, InvalidRow>(
            match service {
                Oauth2Service::Google => ServiceType::Google(service),
                Oauth2Service::Outlook => ServiceType::Outlook(service),
            },
        ),
{
}

} // verus!
