//! The provider for the Windows service control manager.

use vstd::prelude::*;
use crate::models::service::{
    copy_text, service_views, text_of, Service, ServiceStatus, ServiceType, ServiceView,
};
use crate::services::discovery::traits::{no_services, DiscoveryError, HostOs, ServiceDiscovery};

verus! {

/// The error of `serde_json`: why a text is no JSON document.
#[verifier::external_type_specification]
#[verifier::external_body]
pub struct ExJsonError(serde_json::Error);

/// One element of the listing: the texts under `Name` and `DisplayName` and
/// the integer under `Status`, each where the element has it.
#[derive(Debug)]
pub struct ServiceRow {
    pub name: Option<String>,
    pub status: Option<i64>,
    pub display_name: Option<String>,
}

/// What a row says: name, status, display name.
pub open spec fn row_view(row: ServiceRow) -> (Option<Seq<char>>, Option<i64>, Option<Seq<char>>) {
    (text_of(row.name), row.status, text_of(row.display_name))
}

pub open spec fn row_views(rows: Seq<ServiceRow>) -> Seq<
    (Option<Seq<char>>, Option<i64>, Option<Seq<char>>),
> {
    Seq::new(rows.len(), |i: int| row_view(rows[i]))
}

pub open spec fn rows_of(rows: Option<Vec<ServiceRow>>) -> Option<
    Seq<(Option<Seq<char>>, Option<i64>, Option<Seq<char>>)>,
> {
    match rows {
        Some(r) => Some(row_views(r@)),
        None => None,
    }
}

/// What a text holds as a JSON document: nothing where it is no JSON
/// document; the rows of its elements where it is an array; `None` within
/// where it is another JSON value.
pub uninterp spec fn json_rows(text: Seq<char>) -> Option<
    Option<Seq<(Option<Seq<char>>, Option<i64>, Option<Seq<char>>)>>,
>;

/// `serde_json::from_str` into a `Value`, and the value's accessors
/// `as_array`, indexing by key, `as_str` and `as_i64`. The call fails exactly
/// where the text is no JSON document. An element that has no string under a
/// key, or no integer that fits, has `None` in the row.
#[verifier::external_body]
fn read_json_rows(text: &str) -> (r: Result<Option<Vec<ServiceRow>>, serde_json::Error>)
    ensures
        match r {
            Ok(rows) => json_rows(text@) == Some(rows_of(rows)),
            Err(_) => json_rows(text@).is_none(),
        },
{
    let value: serde_json::Value = serde_json::from_str(text)?;
    Ok(value.as_array().map(|items| items.iter().map(|item| ServiceRow {
        name: item["Name"].as_str().map(String::from),
        status: item["Status"].as_i64(),
        display_name: item["DisplayName"].as_str().map(String::from),
    }).collect()))
}

/// The status that a status code of the service control manager stands for.
pub open spec fn code_status(code: Option<i64>) -> ServiceStatus {
    match code {
        Some(c) => if c == 4 {
            ServiceStatus::Running
        } else if c == 1 {
            ServiceStatus::Stopped
        } else {
            ServiceStatus::Unknown
        },
        None => ServiceStatus::Unknown,
    }
}

/// The record of a row that has a name.
pub open spec fn row_record(
    name: Seq<char>,
    status: Option<i64>,
    display_name: Option<Seq<char>>,
) -> ServiceView {
    ServiceView {
        id: name,
        name,
        status: code_status(status),
        service_type: ServiceType::WindowsService,
        ports: Seq::<u16>::empty(),
        pid: None,
        path: None,
        description: display_name,
        auto_start: false,
        cpu_usage_bits: None,
        memory_bytes: None,
        memory_percent_bits: None,
    }
}

/// The records of the rows that have a name, in order.
pub open spec fn row_records(
    rows: Seq<(Option<Seq<char>>, Option<i64>, Option<Seq<char>>)>,
) -> Seq<ServiceView>
    decreases rows.len(),
{
    if rows.len() == 0 {
        Seq::<ServiceView>::empty()
    } else {
        let rest = row_records(rows.drop_last());
        match rows.last().0 {
            Some(name) => rest.push(row_record(name, rows.last().1, rows.last().2)),
            None => rest,
        }
    }
}

/// The records of a listing: those of its rows where it is an array, none
/// where it is another value.
pub open spec fn listing_records(
    rows: Option<Seq<(Option<Seq<char>>, Option<i64>, Option<Seq<char>>)>>,
) -> Seq<ServiceView> {
    match rows {
        Some(r) => row_records(r),
        None => Seq::<ServiceView>::empty(),
    }
}

/// The records of the rows of a listing.
pub fn services_from_rows(rows: &Option<Vec<ServiceRow>>) -> (r: Vec<Service>)
    ensures
        service_views(r@) == listing_records(rows_of(*rows)),
{
    match rows {
        Some(list) => {
            let ghost all = row_views(list@);
            let mut out: Vec<Service> = Vec::new();
            let mut i: usize = 0;
            while i < list.len()
                invariant
                    i <= list.len(),
                    all == row_views(list@),
                    service_views(out@) == row_records(all.take(i as int)),
                decreases list.len() - i,
            {
                proof {
                    assert(all.take(i + 1).drop_last() == all.take(i as int));
                    assert(all.take(i + 1).last() == row_view(list[i as int]));
                }
                let row = &list[i];
                match &row.name {
                    Some(name) => {
                        let status = match row.status {
                            Some(c) => if c == 4 {
                                ServiceStatus::Running
                            } else if c == 1 {
                                ServiceStatus::Stopped
                            } else {
                                ServiceStatus::Unknown
                            },
                            None => ServiceStatus::Unknown,
                        };
                        let record = Service {
                            id: name.clone(),
                            name: name.clone(),
                            status,
                            service_type: ServiceType::WindowsService,
                            ports: Vec::new(),
                            pid: None,
                            path: None,
                            description: copy_text(&row.display_name),
                            auto_start: false,
                            cpu_usage_bits: None,
                            memory_bytes: None,
                            memory_percent_bits: None,
                        };
                        let ghost before = service_views(out@);
                        let ghost rv = record@;
                        out.push(record);
                        assert(service_views(out@) == before.push(rv));
                    },
                    None => {},
                }
                i += 1;
            }
            assert(all.take(list.len() as int) == all);
            out
        },
        None => no_services(),
    }
}

#[derive(Debug, Clone, Copy)]
pub struct WindowsServiceDiscovery {}

impl WindowsServiceDiscovery {
    pub fn new() -> (r: Self) {
        WindowsServiceDiscovery {  }
    }

    /// The service control manager exists on Windows only.
    pub fn is_available(&self, host: HostOs) -> (r: bool)
        ensures
            r == (host == HostOs::Windows),
    {
        host == HostOs::Windows
    }

    /// The records in the output of
    /// `Get-Service | Select-Object Name,Status,DisplayName | ConvertTo-Json`.
    /// A text that is no JSON document is an error; an element without a
    /// name is passed over.
    pub fn discover(&self, output: &str) -> (r: Result<Vec<Service>, DiscoveryError>)
        ensures
            match json_rows(output@) {
                Some(rows) => r.is_ok() && service_views(r.unwrap()@) == listing_records(rows),
                None => r == Err::<Vec<Service>, DiscoveryError>(DiscoveryError::MalformedListing),
            },
    {
        match read_json_rows(output) {
            Ok(rows) => Ok(services_from_rows(&rows)),
            Err(_) => Err(DiscoveryError::MalformedListing),
        }
    }
}

impl ServiceDiscovery for WindowsServiceDiscovery {
    open spec fn name() -> Seq<char> {
        "Windows Services"@
    }

    fn provider_name(&self) -> (r: &'static str) {
        "Windows Services"
    }
}

} // verus!
