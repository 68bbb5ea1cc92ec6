use user_gateway::response::{Body, Response, STATUS_OK, STATUS_SERVER_ERROR};
use user_gateway::route::Route;
use user_gateway::settings::{RecyclePolicy, Settings};

#[test]
fn routes_have_their_paths() {
    assert_eq!(Route::Home.path(), "/");
    assert_eq!(Route::Insert.path(), "/insert");
    assert_eq!(Route::SelectById.path(), "/user/{id}");
    assert_eq!(Route::SelectAll.path(), "/alluser");
    assert_eq!(Route::DeleteById.path(), "/delete/{id}");
    assert_eq!(Route::UpdateByName.path(), "/update/{name}");
}

#[test]
fn routes_do_not_collide() {
    let routes = [
        Route::Home,
        Route::Insert,
        Route::SelectById,
        Route::SelectAll,
        Route::DeleteById,
        Route::UpdateByName,
    ];
    for (i, a) in routes.iter().enumerate() {
        for b in routes.iter().skip(i + 1) {
            assert_ne!(a.path(), b.path());
        }
    }
}

#[test]
fn every_route_is_a_get() {
    let routes = [
        Route::Home,
        Route::Insert,
        Route::SelectById,
        Route::SelectAll,
        Route::DeleteById,
        Route::UpdateByName,
    ];
    for route in routes.iter() {
        assert_eq!(route.method(), "GET");
    }
}

#[test]
fn local_settings() {
    let settings = Settings::local();
    assert_eq!(settings.host, "localhost");
    assert_eq!(settings.dbname, "Demo");
    assert_eq!(settings.user, "postgres");
    assert_eq!(settings.password, "sanjay");
    assert_eq!(settings.recycle_policy, RecyclePolicy::Fast);
    assert_eq!(settings.bind_addr, "127.0.0.1");
    assert_eq!(settings.bind_port, 8080);
}

#[test]
fn responses_carry_their_status() {
    assert_eq!(STATUS_OK, 200);
    assert_eq!(STATUS_SERVER_ERROR, 500);
    assert_eq!(
        Response::ok_text("fine".to_string()),
        Response { status: 200, body: Body::Text("fine".to_string()) }
    );
    assert_eq!(Response::ok_json(vec![]), Response { status: 200, body: Body::Json(vec![]) });
    assert_eq!(
        Response::server_error("broken".to_string()),
        Response { status: 500, body: Body::Text("broken".to_string()) }
    );
}
