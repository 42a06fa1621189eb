//! The endpoints of the service and how a request finds its own.

use crate::outside::{fields_between, is_i32_text, reads_as_i32, split_at, text_views};
use crate::result::Status;
use vstd::prelude::*;

verus! {

#[derive(Clone, Copy, Debug, PartialEq, Eq)]
pub enum Method {
    Get,
    Post,
}

/// What serves a request.
#[derive(Clone, Copy, Debug, PartialEq, Eq)]
pub enum Endpoint {
    Index,
    Users,
    User,
    UserEdit,
    UserEditPost,
    Register,
    RegisterPost,
    Login,
    LoginPost,
    LoginOnetime,
    ForgotPassword,
    ForgotPasswordPost,
    ChangePassword,
    ChangePasswordPost,
    Logout,
    Sensor,
    SensorEdit,
    SensorEditPost,
    SetFlash,
    ApiAddUser,
    ApiGetUsers,
    ApiGetToken,
    ApiGetSensorToken,
    ApiAddSensor,
    ApiAddReading,
    ApiAddReadings,
    ApiGetReadings,
    ApiGetEnergyStats,
    Files,
}

/// One part of the path of a route.
pub enum Part {
    /// Exactly this segment.
    Fixed(String),
    /// Any one segment.
    Text,
    /// One segment that reads as a 32-bit signed integer.
    Number,
    /// At the end of a route, all segments that are left; elsewhere any one.
    Rest,
}

pub struct Route {
    pub endpoint: Endpoint,
    pub method: Method,
    pub parts: Vec<Part>,
}

/// A part of a path with its name as plain text.
pub enum PartView {
    Fixed(Seq<char>),
    Text,
    Number,
    Rest,
}

/// A route with its parts as plain text.
pub struct RouteView {
    pub endpoint: Endpoint,
    pub method: Method,
    pub parts: Seq<PartView>,
}

impl Part {
    pub open spec fn view(self) -> PartView {
        match self {
            Part::Fixed(name) => PartView::Fixed(name@),
            Part::Text => PartView::Text,
            Part::Number => PartView::Number,
            Part::Rest => PartView::Rest,
        }
    }
}

impl Route {
    pub open spec fn view(self) -> RouteView {
        RouteView {
            endpoint: self.endpoint,
            method: self.method,
            parts: Seq::new(self.parts@.len(), |i: int| self.parts@[i].view()),
        }
    }
}

/// Whether a part of a route takes a segment of a path.
pub open spec fn part_matches(part: PartView, segment: Seq<char>) -> bool {
    match part {
        PartView::Fixed(name) => name == segment,
        PartView::Text => true,
        PartView::Number => is_i32_text(segment),
        PartView::Rest => true,
    }
}

/// How many leading parts of a route take one segment each.
pub open spec fn single_parts(parts: Seq<PartView>) -> int {
    if parts.len() > 0 && parts.last() is Rest {
        parts.len() - 1
    } else {
        parts.len() as int
    }
}

/// Whether the parts of a route take the segments of a path, one by one.
pub open spec fn parts_match(parts: Seq<PartView>, path: Seq<Seq<char>>) -> bool {
    &&& if single_parts(parts) < parts.len() {
        path.len() >= single_parts(parts)
    } else {
        path.len() == single_parts(parts)
    }
    &&& forall|i: int| 0 <= i < single_parts(parts) ==> part_matches(#[trigger] parts[i], path[i])
}

/// Whether a route serves a request of a method for a path.
pub open spec fn route_matches(route: RouteView, method: Method, path: Seq<Seq<char>>) -> bool {
    route.method == method && parts_match(route.parts, path)
}

/// Whether `found` is the endpoint of the first route of `table` that
/// serves the request, or nothing where none does.
pub open spec fn is_first_serving(
    found: Option<Endpoint>,
    table: Seq<RouteView>,
    method: Method,
    path: Seq<Seq<char>>,
) -> bool {
    match found {
        Some(endpoint) => exists|i: int|
            0 <= i < table.len() && (#[trigger] table[i]).endpoint == endpoint && route_matches(
                table[i],
                method,
                path,
            ) && forall|j: int| 0 <= j < i ==> !route_matches(#[trigger] table[j], method, path),
        None => forall|j: int|
            0 <= j < table.len() ==> !route_matches(#[trigger] table[j], method, path),
    }
}

/// The segments of a textual path: its fields between slashes that are not
/// empty.
pub open spec fn segments_of(path: Seq<char>) -> Seq<Seq<char>> {
    fields_between(path, '/').filter(|field: Seq<char>| field.len() > 0)
}

/// The segments of a textual path.
pub fn segments(path: &str) -> (parts: Vec<String>)
    ensures
        text_views(parts@) == segments_of(path@),
{
    let fields: Vec<String> = split_at(path, '/');
    let ghost all = fields_between(path@, '/');
    let ghost keep = |field: Seq<char>| field.len() > 0;
    let mut parts: Vec<String> = Vec::new();
    let mut i: usize = 0;
    proof {
        assert(all.take(0) =~= Seq::<Seq<char>>::empty());
        assert(all.take(0).filter(keep) =~= Seq::<Seq<char>>::empty()) by {
            reveal(Seq::filter);
        }
        assert(text_views(parts@) =~= Seq::<Seq<char>>::empty());
    }
    while i < fields.len()
        invariant
            i <= fields.len(),
            text_views(fields@) == all,
            keep == |field: Seq<char>| field.len() > 0,
            text_views(parts@) == all.take(i as int).filter(keep),
        decreases fields.len() - i,
    {
        let field: String = fields[i].clone();
        let ghost before = text_views(parts@);
        proof {
            assert(field@ == text_views(fields@)[i as int]);
            assert(all.take(i + 1) =~= all.take(i as int).push(all[i as int]));
            all.take(i as int).lemma_filter_push(all[i as int], keep);
        }
        if field.as_str().unicode_len() > 0 {
            parts.push(field);
            proof {
                assert(text_views(parts@) =~= before.push(all[i as int]));
            }
        }
        i += 1;
    }
    proof {
        assert(all.take(all.len() as int) =~= all);
    }
    parts
}

fn fits(part: &Part, segment: &String) -> (ok: bool)
    ensures
        ok == part_matches(part.view(), segment@),
{
    match part {
        Part::Fixed(name) => *name == *segment,
        Part::Text => true,
        Part::Number => reads_as_i32(segment.as_str()),
        Part::Rest => true,
    }
}

/// Whether a route serves a request of a method for a path.
pub fn serves(route: &Route, method: Method, path: &Vec<String>) -> (ok: bool)
    ensures
        ok == route_matches(route.view(), method, text_views(path@)),
{
    let same_method: bool = match (route.method, method) {
        (Method::Get, Method::Get) => true,
        (Method::Post, Method::Post) => true,
        _ => false,
    };
    if !same_method {
        return false;
    }
    let n: usize = route.parts.len();
    let open_end: bool = n > 0 && match route.parts[n - 1] {
        Part::Rest => true,
        _ => false,
    };
    let single: usize = if open_end { n - 1 } else { n };
    if path.len() < single || (!open_end && path.len() != single) {
        return false;
    }
    let mut i: usize = 0;
    while i < single
        invariant
            i <= single <= path.len(),
            single <= route.parts.len(),
            single == single_parts(route.view().parts),
            forall|j: int|
                0 <= j < i ==> part_matches(#[trigger] route.view().parts[j], text_views(path@)[j]),
        decreases single - i,
    {
        assert(route.view().parts[i as int] == route.parts@[i as int].view());
        if !fits(&route.parts[i], &path[i]) {
            assert(!part_matches(route.view().parts[i as int], text_views(path@)[i as int]));
            return false;
        }
        i += 1;
    }
    true
}

/// The first route of a table that serves a request.
pub fn find_route(table: &Vec<Route>, method: Method, path: &Vec<String>) -> (found: Option<usize>)
    ensures
        match found {
            Some(i) => i < table@.len() && route_matches(
                table@[i as int].view(),
                method,
                text_views(path@),
            ) && forall|j: int|
                0 <= j < i ==> !route_matches(
                    (#[trigger] table@[j]).view(),
                    method,
                    text_views(path@),
                ),
            None => forall|j: int|
                0 <= j < table@.len() ==> !route_matches(
                    (#[trigger] table@[j]).view(),
                    method,
                    text_views(path@),
                ),
        },
{
    let mut i: usize = 0;
    while i < table.len()
        invariant
            i <= table.len(),
            forall|j: int|
                0 <= j < i ==> !route_matches(
                    (#[trigger] table@[j]).view(),
                    method,
                    text_views(path@),
                ),
        decreases table.len() - i,
    {
        if serves(&table[i], method, path) {
            return Some(i);
        }
        i += 1;
    }
    None
}

/// The routes of the service: the pages, the JSON interface under `api`
/// and the files under `static`.
pub open spec fn route_table() -> Seq<RouteView> {
    seq![
        RouteView { endpoint: Endpoint::Index, method: Method::Get, parts: seq![] },
        RouteView { endpoint: Endpoint::Users, method: Method::Get, parts: seq![PartView::Fixed("users"@)] },
        RouteView { endpoint: Endpoint::User, method: Method::Get, parts: seq![PartView::Fixed("user"@), PartView::Text] },
        RouteView { endpoint: Endpoint::UserEdit, method: Method::Get, parts: seq![PartView::Fixed("user"@), PartView::Text, PartView::Fixed("edit"@)] },
        RouteView { endpoint: Endpoint::UserEditPost, method: Method::Post, parts: seq![PartView::Fixed("user"@), PartView::Text, PartView::Fixed("edit"@)] },
        RouteView { endpoint: Endpoint::Register, method: Method::Get, parts: seq![PartView::Fixed("register"@)] },
        RouteView { endpoint: Endpoint::RegisterPost, method: Method::Post, parts: seq![PartView::Fixed("register"@)] },
        RouteView { endpoint: Endpoint::Login, method: Method::Get, parts: seq![PartView::Fixed("login"@)] },
        RouteView { endpoint: Endpoint::LoginPost, method: Method::Post, parts: seq![PartView::Fixed("login"@)] },
        RouteView { endpoint: Endpoint::LoginOnetime, method: Method::Get, parts: seq![PartView::Fixed("login"@), PartView::Fixed("onetime"@), PartView::Text] },
        RouteView { endpoint: Endpoint::ForgotPassword, method: Method::Get, parts: seq![PartView::Fixed("forgot_password"@)] },
        RouteView { endpoint: Endpoint::ForgotPasswordPost, method: Method::Post, parts: seq![PartView::Fixed("forgot_password"@)] },
        RouteView { endpoint: Endpoint::ChangePassword, method: Method::Get, parts: seq![PartView::Fixed("change_password"@)] },
        RouteView { endpoint: Endpoint::ChangePasswordPost, method: Method::Post, parts: seq![PartView::Fixed("change_password"@)] },
        RouteView { endpoint: Endpoint::Logout, method: Method::Get, parts: seq![PartView::Fixed("logout"@)] },
        RouteView { endpoint: Endpoint::Sensor, method: Method::Get, parts: seq![PartView::Fixed("sensor"@), PartView::Number] },
        RouteView { endpoint: Endpoint::SensorEdit, method: Method::Get, parts: seq![PartView::Fixed("sensor"@), PartView::Number, PartView::Fixed("edit"@)] },
        RouteView { endpoint: Endpoint::SensorEditPost, method: Method::Post, parts: seq![PartView::Fixed("sensor"@), PartView::Number, PartView::Fixed("edit"@)] },
        RouteView { endpoint: Endpoint::SetFlash, method: Method::Get, parts: seq![PartView::Fixed("flash"@)] },
        RouteView { endpoint: Endpoint::ApiAddUser, method: Method::Post, parts: seq![PartView::Fixed("api"@), PartView::Fixed("users"@), PartView::Fixed("new"@)] },
        RouteView { endpoint: Endpoint::ApiGetUsers, method: Method::Get, parts: seq![PartView::Fixed("api"@), PartView::Fixed("users"@), PartView::Fixed("all"@)] },
        RouteView { endpoint: Endpoint::ApiGetToken, method: Method::Post, parts: seq![PartView::Fixed("api"@), PartView::Fixed("token"@)] },
        RouteView { endpoint: Endpoint::ApiGetSensorToken, method: Method::Post, parts: seq![PartView::Fixed("api"@), PartView::Fixed("sensor_token"@)] },
        RouteView { endpoint: Endpoint::ApiAddSensor, method: Method::Post, parts: seq![PartView::Fixed("api"@), PartView::Fixed("add_sensor"@)] },
        RouteView { endpoint: Endpoint::ApiAddReading, method: Method::Post, parts: seq![PartView::Fixed("api"@), PartView::Fixed("add_reading"@)] },
        RouteView { endpoint: Endpoint::ApiAddReadings, method: Method::Post, parts: seq![PartView::Fixed("api"@), PartView::Fixed("add_readings"@)] },
        RouteView { endpoint: Endpoint::ApiGetReadings, method: Method::Get, parts: seq![PartView::Fixed("api"@), PartView::Fixed("sensor"@), PartView::Number, PartView::Fixed("readings"@)] },
        RouteView { endpoint: Endpoint::ApiGetEnergyStats, method: Method::Get, parts: seq![PartView::Fixed("api"@), PartView::Fixed("sensor"@), PartView::Number, PartView::Fixed("energy_stats"@)] },
        RouteView { endpoint: Endpoint::Files, method: Method::Get, parts: seq![PartView::Fixed("static"@), PartView::Rest] },
    ]
}

fn fixed(name: &str) -> (part: Part)
    ensures
        part.view() == PartView::Fixed(name@),
{
    Part::Fixed(String::from_str(name))
}

fn route(endpoint: Endpoint, method: Method, parts: Vec<Part>) -> (r: Route)
    ensures
        r.endpoint == endpoint,
        r.method == method,
        r.parts == parts,
{
    Route { endpoint, method, parts }
}

/// The routes of the service.
#[verifier::rlimit(60)]
pub fn routes() -> (table: Vec<Route>)
    ensures
        table@.len() == route_table().len(),
        forall|i: int| 0 <= i < table@.len() ==> (#[trigger] table@[i]).view() == route_table()[i],
{
    let mut table: Vec<Route> = Vec::new();
    table.push(route(Endpoint::Index, Method::Get, Vec::new()));
    table.push(route(Endpoint::Users, Method::Get, vec![fixed("users")]));
    table.push(route(Endpoint::User, Method::Get, vec![fixed("user"), Part::Text]));
    table.push(route(Endpoint::UserEdit, Method::Get, vec![fixed("user"), Part::Text, fixed("edit")]));
    table.push(route(Endpoint::UserEditPost, Method::Post, vec![fixed("user"), Part::Text, fixed("edit")]));
    table.push(route(Endpoint::Register, Method::Get, vec![fixed("register")]));
    table.push(route(Endpoint::RegisterPost, Method::Post, vec![fixed("register")]));
    table.push(route(Endpoint::Login, Method::Get, vec![fixed("login")]));
    table.push(route(Endpoint::LoginPost, Method::Post, vec![fixed("login")]));
    table.push(route(Endpoint::LoginOnetime, Method::Get, vec![fixed("login"), fixed("onetime"), Part::Text]));
    table.push(route(Endpoint::ForgotPassword, Method::Get, vec![fixed("forgot_password")]));
    table.push(route(Endpoint::ForgotPasswordPost, Method::Post, vec![fixed("forgot_password")]));
    table.push(route(Endpoint::ChangePassword, Method::Get, vec![fixed("change_password")]));
    table.push(route(Endpoint::ChangePasswordPost, Method::Post, vec![fixed("change_password")]));
    table.push(route(Endpoint::Logout, Method::Get, vec![fixed("logout")]));
    table.push(route(Endpoint::Sensor, Method::Get, vec![fixed("sensor"), Part::Number]));
    table.push(route(Endpoint::SensorEdit, Method::Get, vec![fixed("sensor"), Part::Number, fixed("edit")]));
    table.push(route(Endpoint::SensorEditPost, Method::Post, vec![fixed("sensor"), Part::Number, fixed("edit")]));
    table.push(route(Endpoint::SetFlash, Method::Get, vec![fixed("flash")]));
    table.push(route(Endpoint::ApiAddUser, Method::Post, vec![fixed("api"), fixed("users"), fixed("new")]));
    table.push(route(Endpoint::ApiGetUsers, Method::Get, vec![fixed("api"), fixed("users"), fixed("all")]));
    table.push(route(Endpoint::ApiGetToken, Method::Post, vec![fixed("api"), fixed("token")]));
    table.push(route(Endpoint::ApiGetSensorToken, Method::Post, vec![fixed("api"), fixed("sensor_token")]));
    table.push(route(Endpoint::ApiAddSensor, Method::Post, vec![fixed("api"), fixed("add_sensor")]));
    table.push(route(Endpoint::ApiAddReading, Method::Post, vec![fixed("api"), fixed("add_reading")]));
    table.push(route(Endpoint::ApiAddReadings, Method::Post, vec![fixed("api"), fixed("add_readings")]));
    table.push(route(Endpoint::ApiGetReadings, Method::Get, vec![fixed("api"), fixed("sensor"), Part::Number, fixed("readings")]));
    table.push(route(Endpoint::ApiGetEnergyStats, Method::Get, vec![fixed("api"), fixed("sensor"), Part::Number, fixed("energy_stats")]));
    table.push(route(Endpoint::Files, Method::Get, vec![fixed("static"), Part::Rest]));
    proof {
        assert(table@[0].view().parts =~= route_table()[0].parts);
        assert(table@[1].view().parts =~= route_table()[1].parts);
        assert(table@[2].view().parts =~= route_table()[2].parts);
        assert(table@[3].view().parts =~= route_table()[3].parts);
        assert(table@[4].view().parts =~= route_table()[4].parts);
        assert(table@[5].view().parts =~= route_table()[5].parts);
        assert(table@[6].view().parts =~= route_table()[6].parts);
        assert(table@[7].view().parts =~= route_table()[7].parts);
        assert(table@[8].view().parts =~= route_table()[8].parts);
        assert(table@[9].view().parts =~= route_table()[9].parts);
        assert(table@[10].view().parts =~= route_table()[10].parts);
        assert(table@[11].view().parts =~= route_table()[11].parts);
        assert(table@[12].view().parts =~= route_table()[12].parts);
        assert(table@[13].view().parts =~= route_table()[13].parts);
        assert(table@[14].view().parts =~= route_table()[14].parts);
        assert(table@[15].view().parts =~= route_table()[15].parts);
        assert(table@[16].view().parts =~= route_table()[16].parts);
        assert(table@[17].view().parts =~= route_table()[17].parts);
        assert(table@[18].view().parts =~= route_table()[18].parts);
        assert(table@[19].view().parts =~= route_table()[19].parts);
        assert(table@[20].view().parts =~= route_table()[20].parts);
        assert(table@[21].view().parts =~= route_table()[21].parts);
        assert(table@[22].view().parts =~= route_table()[22].parts);
        assert(table@[23].view().parts =~= route_table()[23].parts);
        assert(table@[24].view().parts =~= route_table()[24].parts);
        assert(table@[25].view().parts =~= route_table()[25].parts);
        assert(table@[26].view().parts =~= route_table()[26].parts);
        assert(table@[27].view().parts =~= route_table()[27].parts);
        assert(table@[28].view().parts =~= route_table()[28].parts);
    }
    table
}

/// What serves a request of a method for a textual path: the first route
/// of the service that takes its segments, if any.
pub fn endpoint_for(method: Method, path: &str) -> (found: Option<Endpoint>)
    ensures
        is_first_serving(found, route_table(), method, segments_of(path@)),
{
    let parts: Vec<String> = segments(path);
    let table: Vec<Route> = routes();
    match find_route(&table, method, &parts) {
        Some(i) => {
            proof {
                assert(table@[i as int].view() == route_table()[i as int]);
                assert forall|j: int| 0 <= j < i implies !route_matches(
                    #[trigger] route_table()[j],
                    method,
                    segments_of(path@),
                ) by {
                    assert(table@[j].view() == route_table()[j]);
                }
            }
            Some(table[i].endpoint)
        },
        None => {
            proof {
                assert forall|j: int| 0 <= j < route_table().len() implies !route_matches(
                    #[trigger] route_table()[j],
                    method,
                    segments_of(path@),
                ) by {
                    assert(table@[j].view() == route_table()[j]);
                }
            }
            None
        },
    }
}

/// The status of a request by what serves it: not found where nothing
/// does, otherwise for the endpoint to say.
pub fn unserved_status(found: Option<Endpoint>) -> (status: Option<Status>)
    ensures
        status == if found.is_none() {
            Some(Status::NotFound)
        } else {
            None::<Status>
        },
{
    match found {
        None => Some(Status::NotFound),
        Some(_) => None,
    }
}

} // verus!
