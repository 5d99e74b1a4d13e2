use vstd::prelude::*;
use crate::config::ConfigRoot;
use crate::ipp_service::{spec_path_matches, MyIppService};

verus! {

/// Why the server does not start.
#[derive(Clone, Copy, Debug, PartialEq, Eq, Structural)]
pub enum ServerError {
    /// The configuration names no printer.
    NoDevice,
}

impl ServerError {
    /// The text that reports the error.
    pub fn message(&self) -> (r: String)
        ensures
            r@ == (match *self {
                ServerError::NoDevice => "no printer device found in config file"@,
            }),
    {
        match *self {
            ServerError::NoDevice => String::from_str("no printer device found in config file"),
        }
    }
}

/// The server starts only when the configuration names a printer.
pub fn check_devices(config: &ConfigRoot) -> (r: Result<(), ServerError>)
    ensures
        r is Ok <==> config.devices@.len() > 0,
        r is Err ==> r == Err::<(), ServerError>(ServerError::NoDevice),
{
    if config.devices.len() == 0 {
        Err(ServerError::NoDevice)
    } else {
        Ok(())
    }
}

/// What answers an HTTP request.
#[derive(Clone, Copy, Debug, PartialEq, Eq, Structural)]
pub enum Route {
    /// A greeting, for `GET /`.
    Hello,
    /// The printer service at this position.
    Service(usize),
    /// Nothing: 404.
    NotFound,
}

/// The request is `GET /`.
pub open spec fn is_root_get(is_get: bool, path: Seq<char>) -> bool {
    is_get && path == seq!['/']
}

/// Who answers a request: the greeting for `GET /`, else the first service
/// whose base path the path belongs to, else nobody.
pub fn route<S>(is_get: bool, path: &str, services: &Vec<MyIppService<S>>) -> (r: Route)
    ensures
        is_root_get(is_get, path@) ==> r == Route::Hello,
        !is_root_get(is_get, path@) ==> match r {
            Route::Service(i) => i < services@.len()
                && spec_path_matches(services@[i as int].basepath(), path@)
                && forall|j: int| 0 <= j < i ==> !spec_path_matches(#[trigger] services@[j].basepath(), path@),
            Route::NotFound => forall|j: int| 0 <= j < services@.len() ==> !spec_path_matches(#[trigger] services@[j].basepath(), path@),
            Route::Hello => false,
        },
{
    if is_get && path.unicode_len() == 1 && path.get_char(0) == '/' {
        assert(path@ =~= seq!['/']);
        return Route::Hello;
    }
    assert(!is_root_get(is_get, path@)) by {
        if is_root_get(is_get, path@) {
            assert(path@.len() == 1 && path@[0] == '/');
        }
    }
    let mut i: usize = 0;
    while i < services.len()
        invariant
            i <= services.len(),
            !is_root_get(is_get, path@),
            forall|j: int| 0 <= j < i ==> !spec_path_matches(#[trigger] services@[j].basepath(), path@),
        decreases services.len() - i,
    {
        if services[i].matches(path) {
            return Route::Service(i);
        }
        i += 1;
    }
    Route::NotFound
}

} // verus!
