//! A thread-safe logging facade that forwards leveled log calls to a log4j
//! logger living inside an embedded Java virtual machine, reached over JNI.
//!
//! A [`JavaLogger`] is built once for a category name: construction resolves
//! the log4j factory class, obtains the named logger object and caches the
//! four leveled method handles. Afterwards any number of callers may forward
//! messages through [`JavaLogger::log`] or the four single-level operations;
//! every call crosses the JNI boundary under one exclusive lock, and every
//! boundary failure surfaces as the single error kind [`Error`].

mod error;
mod jni_api;
mod logger;

pub use error::{adapt, Error};
pub use logger::{JavaLogger, LogLevel};
