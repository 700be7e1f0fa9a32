//! Where the service listens, and what a test run of it is given.

use crate::text::{decimal, lemma_decimal_is_injective, lemma_frame_keeps_apart, port_text};
use vstd::prelude::*;
use vstd::string::*;

verus! {

/// The socket address of the service on a port: the loopback interface.
pub open spec fn socket_address(port: u16) -> Seq<char> {
    "127.0.0.1:"@ + decimal(port as nat)
}

/// The address under which clients reach the service on a port.
pub open spec fn client_address(port: u16) -> Seq<char> {
    "http://"@ + socket_address(port)
}

/// The statement that creates the database of a test run. The name stands
/// between double quotes as it is.
pub open spec fn creation_statement(name: Seq<char>) -> Seq<char> {
    "CREATE DATABASE \""@ + name + "\";"@
}

/// The address to bind the listener to. Port 0 leaves the choice of the port
/// to the system.
pub fn bind_address(port: u16) -> (res: String)
    ensures
        res@ == socket_address(port),
{
    let mut address = "127.0.0.1:".to_owned();
    address.append(port_text(port).as_str());
    address
}

/// The address that a test run hands to its clients, once the listener
/// knows its port.
pub fn base_url(port: u16) -> (res: String)
    ensures
        res@ == client_address(port),
{
    let mut address = "http://".to_owned();
    address.append(bind_address(port).as_str());
    address
}

/// The statement that creates the database of a test run.
pub fn create_database_statement(name: &str) -> (res: String)
    ensures
        res@ == creation_statement(name@),
{
    let mut statement = "CREATE DATABASE \"".to_owned();
    statement.append(name);
    statement.append("\";");
    statement
}

/// Listeners on different ports have different addresses, for binding and
/// for clients.
pub proof fn lemma_ports_keep_addresses_apart(first: u16, second: u16)
    requires
        first != second,
    ensures
        socket_address(first) != socket_address(second),
        client_address(first) != client_address(second),
{
    if decimal(first as nat) == decimal(second as nat) {
        lemma_decimal_is_injective(first as nat, second as nat);
    }
    let none = Seq::<char>::empty();
    lemma_frame_keeps_apart("127.0.0.1:"@, decimal(first as nat), decimal(second as nat), none);
    assert("127.0.0.1:"@ + decimal(first as nat) + none =~= socket_address(first));
    assert("127.0.0.1:"@ + decimal(second as nat) + none =~= socket_address(second));
    lemma_frame_keeps_apart("http://"@, socket_address(first), socket_address(second), none);
    assert("http://"@ + socket_address(first) + none =~= client_address(first));
    assert("http://"@ + socket_address(second) + none =~= client_address(second));
}

/// Test runs under different names create different databases.
pub proof fn lemma_names_keep_statements_apart(first: Seq<char>, second: Seq<char>)
    requires
        first != second,
    ensures
        creation_statement(first) != creation_statement(second),
{
    lemma_frame_keeps_apart("CREATE DATABASE \""@, first, second, "\";"@);
}

} // verus!
