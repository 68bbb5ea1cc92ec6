//! Where each handler is mounted.
//!
//! Clients depend on these paths and on the method, which is `GET` for every
//! route, the ones that change the table included.

use vstd::prelude::*;

verus! {

/// One of the six routes.
#[derive(Debug, Clone, Copy, PartialEq, Eq)]
pub enum Route {
    Home,
    Insert,
    SelectById,
    SelectAll,
    DeleteById,
    UpdateByName,
}

impl Route {
    /// The route's path pattern. A segment in braces stands for one path
    /// segment of the request, handed to the handler under that name.
    pub open spec fn pattern(self) -> Seq<char> {
        match self {
            Route::Home => "/"@,
            Route::Insert => "/insert"@,
            Route::SelectById => "/user/{id}"@,
            Route::SelectAll => "/alluser"@,
            Route::DeleteById => "/delete/{id}"@,
            Route::UpdateByName => "/update/{name}"@,
        }
    }

    /// The route's path pattern.
    pub fn path(&self) -> (path: &'static str)
        ensures
            path@ == self.pattern(),
    {
        match self {
            Route::Home => "/",
            Route::Insert => "/insert",
            Route::SelectById => "/user/{id}",
            Route::SelectAll => "/alluser",
            Route::DeleteById => "/delete/{id}",
            Route::UpdateByName => "/update/{name}",
        }
    }

    /// The HTTP method the route answers to.
    pub fn method(&self) -> (method: &'static str)
        ensures
            method@ == "GET"@,
    {
        "GET"
    }
}

/// No two routes share a path pattern.
pub proof fn patterns_are_distinct(a: Route, b: Route)
    requires
        a != b,
    ensures
        a.pattern() != b.pattern(),
{
    reveal_strlit("/");
    reveal_strlit("/insert");
    reveal_strlit("/user/{id}");
    reveal_strlit("/alluser");
    reveal_strlit("/delete/{id}");
    reveal_strlit("/update/{name}");
    assert(Route::Home.pattern().len() == 1);
    assert(Route::Insert.pattern().len() == 7);
    assert(Route::SelectById.pattern().len() == 10);
    assert(Route::SelectAll.pattern().len() == 8);
    assert(Route::DeleteById.pattern().len() == 12);
    assert(Route::UpdateByName.pattern().len() == 14);
}

} // verus!
