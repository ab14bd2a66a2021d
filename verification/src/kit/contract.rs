//! Host-neutral app contract descriptors.
use vstd::prelude::*;

verus! {

/// Static descriptor for one protobuf/Connect service declared by an app.
#[derive(Debug, Clone, Copy, PartialEq, Eq)]
pub struct AppContractService {
    service_name: &'static str,
}

impl AppContractService {
    /// The fully-qualified protobuf service name.
    pub closed spec fn spec_service_name(self) -> &'static str {
        self.service_name
    }

    /// Constructs a service descriptor from its fully-qualified protobuf name.
    pub fn new(service_name: &'static str) -> (r: Self)
        ensures
            r.spec_service_name() == service_name,
    {
        AppContractService { service_name }
    }

    /// Returns the fully-qualified protobuf service name.
    pub fn service_name(self) -> (r: &'static str)
        ensures
            r == self.spec_service_name(),
    {
        self.service_name
    }
}

/// Standard posture for HTTP DTOs derived from app contracts.
#[derive(Debug, Clone, Copy, PartialEq, Eq, Structural)]
pub enum AppHttpDtoConvention {
    /// HTTP DTOs are compatibility/adaptation DTOs mapped from canonical
    /// proto-shaped requests/responses.
    CompatibilityAdapter,
}

/// Host-neutral descriptor for an app-owned HTTP compatibility route.
///
/// API gateway and app adapters can use this descriptor to document which HTTP
/// paths expose a contract capability without treating HTTP/JSON as the
/// canonical internal model.
#[derive(Debug, Clone, Copy, PartialEq, Eq)]
pub struct AppHttpRouteContract {
    route_template: &'static str,
    convention: AppHttpDtoConvention,
}

impl AppHttpRouteContract {
    /// The route template.
    pub closed spec fn spec_route_template(self) -> &'static str {
        self.route_template
    }

    /// The DTO convention.
    pub closed spec fn spec_convention(self) -> AppHttpDtoConvention {
        self.convention
    }

    /// Constructs a static HTTP route contract descriptor; every route is a
    /// compatibility adapter.
    pub fn new(route_template: &'static str) -> (r: Self)
        ensures
            r.spec_route_template() == route_template,
            r.spec_convention() == AppHttpDtoConvention::CompatibilityAdapter,
    {
        AppHttpRouteContract { route_template, convention: AppHttpDtoConvention::CompatibilityAdapter }
    }

    /// Returns the route template.
    pub fn route_template(self) -> (r: &'static str)
        ensures
            r == self.spec_route_template(),
    {
        self.route_template
    }

    /// Returns the DTO convention for this route.
    pub fn convention(self) -> (r: AppHttpDtoConvention)
        ensures
            r == self.spec_convention(),
    {
        self.convention
    }
}

} // verus!
