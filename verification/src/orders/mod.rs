//! The dispatcher: commands, mappers between message scopes, and the
//! back-ends that accept the mapped messages.

pub mod command;
pub mod implementation;
pub mod interface;
pub mod mapper;
pub mod mock;
pub mod my_orders;
pub mod stub;

pub use command::CmdResult;
pub use implementation::OrdersImplementation;
pub use interface::{IMyOrders, OrdersError};
pub use mapper::{FnMapper, Mapper};
pub use mock::OrdersMock;
pub use my_orders::{perform_cmd, MyOrders, OrdersStubProxy};
pub use stub::{OrdersStub, Pass, Reducer};
