//! The client-side core of a database driver: the lifetime of reference-counted native
//! resources, the values that are exchanged with them, and the life cycle of a statement.
//!
//! The core performs no input or output. Where the native library or the database
//! decides an outcome, the operation takes the answer as an argument and says what
//! follows from it: so it is with the creation and the end of every resource, with the
//! count of its references, and with whatever is executed or fetched. A failed call
//! carries the native library's report of the failure inside the error that the
//! operation returns. What the client holds itself, such as the cells of a variable, the
//! elements of an object or the properties of a message, is read and written here
//! without a question to anyone.
pub mod connection;
pub mod context;
pub mod data;
pub mod dequeue;
pub mod encoding;
pub mod enqueue;
pub mod enums;
pub mod error;
pub mod flags;
pub mod handle;
pub mod lob;
pub mod message;
pub mod object;
pub mod objectattr;
pub mod objecttype;
pub mod params;
pub mod pool;
pub mod query;
pub mod rowid;
pub mod statement;
pub mod structs;
pub mod subscription;
pub mod time;
pub mod util;
pub mod variable;
pub mod version;

pub use connection::Connection;
pub use context::Context;
pub use data::Data;
pub use dequeue::Options as DeqOptions;
pub use enqueue::Options as EnqOptions;
pub use lob::Lob;
pub use message::Properties as MsgProps;
pub use object::Object;
pub use objectattr::ObjectAttr;
pub use objecttype::ObjectType;
pub use params::AppContext;
pub use pool::Pool;
pub use query::Info as QueryInfo;
pub use rowid::Rowid;
pub use statement::Statement;
pub use structs::{
    ODPIBytes, ODPIData, ODPIDataValueUnion, ODPIObjectAttrInfo, ODPIObjectTypeInfo,
    ODPISubscrMessage,
};
pub use util::ODPIStr;
pub use variable::Var;
