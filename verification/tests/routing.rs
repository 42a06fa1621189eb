use solsensor::result::Status;
use solsensor::routes::{
    endpoint_for, find_route, routes, segments, serves, unserved_status, Endpoint, Method, Part,
    Route,
};

#[test]
fn tests_test_simple_not_ok() {
    let res = endpoint_for(Method::Get, "/invalid_endpoint");
    assert_eq!(unserved_status(res).unwrap(), Status::NotFound);
}

#[test]
fn web_test_simple_not_ok() {
    let res = endpoint_for(Method::Get, "/invalid_endpoint");
    assert_eq!(unserved_status(res).unwrap(), Status::NotFound);
}

#[test]
fn start_page_is_served() {
    let res = endpoint_for(Method::Get, "/");
    assert_eq!(res, Some(Endpoint::Index));
    assert_eq!(unserved_status(res), None);
    assert_eq!(endpoint_for(Method::Post, "/"), None);
}

#[test]
fn every_route_is_found() {
    let cases = [
        (Method::Get, "/users", Endpoint::Users),
        (Method::Get, "/user/a@b.c", Endpoint::User),
        (Method::Get, "/user/a@b.c/edit", Endpoint::UserEdit),
        (Method::Post, "/user/a@b.c/edit", Endpoint::UserEditPost),
        (Method::Get, "/register", Endpoint::Register),
        (Method::Post, "/register", Endpoint::RegisterPost),
        (Method::Get, "/login", Endpoint::Login),
        (Method::Post, "/login", Endpoint::LoginPost),
        (Method::Get, "/login/onetime/abc", Endpoint::LoginOnetime),
        (Method::Get, "/forgot_password", Endpoint::ForgotPassword),
        (Method::Post, "/forgot_password", Endpoint::ForgotPasswordPost),
        (Method::Get, "/change_password", Endpoint::ChangePassword),
        (Method::Post, "/change_password", Endpoint::ChangePasswordPost),
        (Method::Get, "/logout", Endpoint::Logout),
        (Method::Get, "/sensor/12", Endpoint::Sensor),
        (Method::Get, "/sensor/12/edit", Endpoint::SensorEdit),
        (Method::Post, "/sensor/12/edit", Endpoint::SensorEditPost),
        (Method::Get, "/flash", Endpoint::SetFlash),
        (Method::Post, "/api/users/new", Endpoint::ApiAddUser),
        (Method::Get, "/api/users/all", Endpoint::ApiGetUsers),
        (Method::Post, "/api/token", Endpoint::ApiGetToken),
        (Method::Post, "/api/sensor_token", Endpoint::ApiGetSensorToken),
        (Method::Post, "/api/add_sensor", Endpoint::ApiAddSensor),
        (Method::Post, "/api/add_reading", Endpoint::ApiAddReading),
        (Method::Post, "/api/add_readings", Endpoint::ApiAddReadings),
        (Method::Get, "/api/sensor/3/readings", Endpoint::ApiGetReadings),
        (Method::Get, "/api/sensor/-3/energy_stats", Endpoint::ApiGetEnergyStats),
        (Method::Get, "/static/css/site.css", Endpoint::Files),
    ];
    assert_eq!(routes().len(), cases.len() + 1);
    for (method, path, endpoint) in cases {
        assert_eq!(endpoint_for(method, path), Some(endpoint));
    }
}

#[test]
fn other_requests_are_not_served() {
    for path in ["/api", "/api/users", "/sensor", "/sensor/twelve", "/sensor/99999999999", "/users/all"] {
        assert_eq!(endpoint_for(Method::Get, path), None);
    }
    assert_eq!(endpoint_for(Method::Get, "/api/token"), None);
    assert_eq!(endpoint_for(Method::Post, "/logout"), None);
    assert_eq!(endpoint_for(Method::Get, "/dashboard"), None);
}

#[test]
fn segments_skip_empty_fields() {
    assert_eq!(segments("/"), Vec::<String>::new());
    assert_eq!(segments(""), Vec::<String>::new());
    assert_eq!(segments("/a//b/"), vec!["a".to_string(), "b".to_string()]);
    assert_eq!(segments("user/x"), vec!["user".to_string(), "x".to_string()]);
}

#[test]
fn first_route_that_serves_is_found() {
    let table = vec![
        Route { endpoint: Endpoint::Users, method: Method::Get, parts: vec![Part::Text] },
        Route { endpoint: Endpoint::Files, method: Method::Get, parts: vec![Part::Rest] },
        Route {
            endpoint: Endpoint::Sensor,
            method: Method::Get,
            parts: vec![Part::Fixed("s".to_string()), Part::Number],
        },
    ];
    let path = |text: &str| segments(text);
    assert_eq!(find_route(&table, Method::Get, &path("/x")), Some(0));
    assert_eq!(find_route(&table, Method::Get, &path("/")), Some(1));
    assert_eq!(find_route(&table, Method::Get, &path("/s/1")), Some(1));
    assert_eq!(find_route(&table, Method::Post, &path("/x")), None);
    assert!(serves(&table[2], Method::Get, &path("/s/1")));
    assert!(!serves(&table[2], Method::Get, &path("/s/one")));
    assert!(!serves(&table[2], Method::Get, &path("/s/1/2")));
    assert!(!serves(&table[2], Method::Get, &path("/t/1")));
}
