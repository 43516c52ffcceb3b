//! Generation of the Core proxy's dispatch code from the objects found in the
//! runtime sources, and the source scanning decisions that classify them.
pub mod model;
pub mod scanner;
pub mod dispatch;
pub mod args;
pub mod arms;
pub mod object_dispatch;
pub mod routes;
pub mod methods;
pub mod route_decl;
pub mod route_scan;
