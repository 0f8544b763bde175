//! The fixed parameters of the listener, and the address of the store.

use vstd::prelude::*;
use vstd::string::*;

verus! {

/// The directory beneath which every resource writes its files.
pub const OUTPUT_DIR: &'static str = "/var/www/html/iris/";

/// The statement that sets the session's time zone, issued right after
/// connecting: resources render timestamps in local time.
pub const TIME_ZONE_STATEMENT: &'static str = "SET TIME ZONE 'US/Central'";

/// The statement that subscribes to the change-notification channel.
pub const LISTEN_STATEMENT: &'static str = "LISTEN tms";

/// The length of one poll tick, in milliseconds.
pub const TICK_MILLIS: u64 = 300;

/// What precedes the user name in the store's address.
pub const URL_PREFIX: &'static str = "postgres://";

/// What follows the user name in the store's address: the local socket
/// directory, percent-encoded, and the database.
pub const URL_SUFFIX: &'static str = "@%2Frun%2Fpostgresql/tms";

/// The address of the store for `username`, as a sequence of characters.
pub open spec fn connection_url_spec(username: Seq<char>) -> Seq<char> {
    URL_PREFIX@ + username + URL_SUFFIX@
}

/// Builds the address of the store, reached over the local socket and
/// authenticated as `username`.
pub fn connection_url(username: &str) -> (url: String)
    ensures
        url@ == connection_url_spec(username@),
{
    let mut url = String::from_str(URL_PREFIX);
    url.append(username);
    url.append(URL_SUFFIX);
    url
}

} // verus!
