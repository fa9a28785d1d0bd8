//! The logger bridge: a category-scoped log4j logger object and its four
//! leveled method handles, resolved once at construction and guarded by one
//! exclusive lock for the bridge's whole life.

use crate::error::{adapt, Error};
use crate::jni_api;
use vstd::prelude::*;
use vstd::rwlock::RwLock;

verus! {

/// The log level to output to.
#[derive(Clone, Copy, Debug, PartialEq, Eq, Structural)]
pub enum LogLevel {
    /// ERROR level
    Error,
    /// WARN level
    Warn,
    /// INFO level
    Info,
    /// DEBUG level, also applicable to TRACE logging
    Debug,
}

impl LogLevel {
    /// The name of the log4j Category method that emits at this level.
    pub open spec fn method_name_spec(self) -> Seq<char> {
        match self {
            LogLevel::Error => "error"@,
            LogLevel::Warn => "warn"@,
            LogLevel::Info => "info"@,
            LogLevel::Debug => "debug"@,
        }
    }

    /// The name under which this level's method is resolved on the log4j
    /// Category class.
    pub fn method_name(self) -> (r: &'static str)
        ensures
            r@ == self.method_name_spec(),
    {
        match self {
            LogLevel::Error => "error",
            LogLevel::Warn => "warn",
            LogLevel::Info => "info",
            LogLevel::Debug => "debug",
        }
    }
}

/// Distinct levels resolve under distinct method names on the log4j Category
/// class: a message logged at one level can never be forwarded through
/// another level's handle.
pub proof fn lemma_level_method_names_distinct(a: LogLevel, b: LogLevel)
    ensures
        a.method_name_spec() == b.method_name_spec() ==> a == b,
{
    reveal_strlit("error");
    reveal_strlit("warn");
    reveal_strlit("info");
    reveal_strlit("debug");
    assert("error"@.len() == 5);
    assert("warn"@.len() == 4);
    assert("info"@.len() == 4);
    assert("debug"@.len() == 5);
    assert("warn"@[0] == 'w' && "info"@[0] == 'i');
    assert("error"@[0] == 'e' && "debug"@[0] == 'd');
}

/// A cached handle to one leveled method, tagged with the method name it was
/// resolved under, so the bridge's invariant can tie each handle to its level.
struct ResolvedMethod<'a> {
    id: jni::objects::JMethodID<'a>,
    name: Ghost<Seq<char>>,
}

impl<'a> ResolvedMethod<'a> {
    /// Resolves the instance method `name` with descriptor `sig` on `class`,
    /// recording the name it was resolved under.
    fn resolve(
        env: &'a jni::JNIEnv<'a>,
        class: &jni::objects::JClass<'a>,
        name: &str,
        sig: &str,
    ) -> (r: Result<Self, Error>)
        ensures
            r matches Ok(m) ==> m.name@ == name@,
            r matches Err(e) ==> e is RuntimeCallFailed,
    {
        match adapt(jni_api::get_method_id(env, class, name, sig)) {
            Ok(id) => Ok(ResolvedMethod { id, name: Ghost(name@) }),
            Err(e) => Err(e),
        }
    }
}

/// The shared state of a bridge: the call context, the logger object and the
/// four cached method handles, with the category the logger was obtained for.
struct InnerLogger<'a> {
    env: &'a jni::JNIEnv<'a>,
    logger: jni::objects::JObject<'a>,
    error_method: ResolvedMethod<'a>,
    warn_method: ResolvedMethod<'a>,
    info_method: ResolvedMethod<'a>,
    debug_method: ResolvedMethod<'a>,
    category: Ghost<Seq<char>>,
}

impl<'a> InnerLogger<'a> {
    /// Each cached handle was resolved under the method name of its level.
    spec fn wf(self) -> bool {
        &&& self.error_method.name@ == LogLevel::Error.method_name_spec()
        &&& self.warn_method.name@ == LogLevel::Warn.method_name_spec()
        &&& self.info_method.name@ == LogLevel::Info.method_name_spec()
        &&& self.debug_method.name@ == LogLevel::Debug.method_name_spec()
    }

    /// Whether `m` is one of the four handles cached at construction: every
    /// invocation goes through a cached handle, never a re-resolved one.
    spec fn holds_method(self, m: ResolvedMethod<'a>) -> bool {
        ||| m == self.error_method
        ||| m == self.warn_method
        ||| m == self.info_method
        ||| m == self.debug_method
    }

    /// The cached handle that emits at `level`.
    fn method_for(&self, level: LogLevel) -> (r: &ResolvedMethod<'a>)
        ensures
            self.holds_method(*r),
            self.wf() ==> r.name@ == level.method_name_spec(),
    {
        match level {
            LogLevel::Error => &self.error_method,
            LogLevel::Warn => &self.warn_method,
            LogLevel::Info => &self.info_method,
            LogLevel::Debug => &self.debug_method,
        }
    }

    /// Converts `content` into the runtime's string representation and invokes
    /// the cached handle `method` on the logger object with it as the sole
    /// argument. The handle must be one of the four cached at construction and
    /// must be the one resolved under `level`'s method name. Any boundary
    /// failure surfaces as `RuntimeCallFailed`.
    fn invoke(
        &self,
        method: &ResolvedMethod<'a>,
        level: Ghost<LogLevel>,
        content: &str,
    ) -> (r: Result<(), Error>)
        requires
            self.holds_method(*method),
            method.name@ == level@.method_name_spec(),
        ensures
            r matches Err(e) ==> e is RuntimeCallFailed,
    {
        let message = match adapt(jni_api::new_string_value(self.env, content)) {
            Ok(v) => v,
            Err(e) => return Err(e),
        };
        adapt(jni_api::call_void_method(self.env, &self.logger, &method.id, message))
    }

    /// Log to the ERROR level through the cached handle.
    fn log_error(&self, content: &str) -> (r: Result<(), Error>)
        requires
            self.wf(),
        ensures
            r matches Err(e) ==> e is RuntimeCallFailed,
    {
        self.invoke(&self.error_method, Ghost(LogLevel::Error), content)
    }

    /// Log to the WARN level through the cached handle.
    fn log_warn(&self, content: &str) -> (r: Result<(), Error>)
        requires
            self.wf(),
        ensures
            r matches Err(e) ==> e is RuntimeCallFailed,
    {
        self.invoke(&self.warn_method, Ghost(LogLevel::Warn), content)
    }

    /// Log to the INFO level through the cached handle.
    fn log_info(&self, content: &str) -> (r: Result<(), Error>)
        requires
            self.wf(),
        ensures
            r matches Err(e) ==> e is RuntimeCallFailed,
    {
        self.invoke(&self.info_method, Ghost(LogLevel::Info), content)
    }

    /// Log to the DEBUG level through the cached handle.
    fn log_debug(&self, content: &str) -> (r: Result<(), Error>)
        requires
            self.wf(),
        ensures
            r matches Err(e) ==> e is RuntimeCallFailed,
    {
        self.invoke(&self.debug_method, Ghost(LogLevel::Debug), content)
    }
}

/// The JavaLogger: a bridge to one category-scoped log4j logger inside the
/// embedded virtual machine.
///
/// Construction resolves the logger object and the four leveled method
/// handles once; afterwards every log call crosses the boundary under the
/// bridge's exclusive lock, so calls on one bridge are totally ordered and a
/// failed call leaves the shared state intact for the next one.
pub struct JavaLogger<'a> {
    inner: RwLock<InnerLogger<'a>, spec_fn(InnerLogger<'a>) -> bool>,
    category: Ghost<Seq<char>>,
}

impl<'a> View for JavaLogger<'a> {
    type V = Seq<char>;

    /// A bridge is abstractly the category name it was constructed for.
    closed spec fn view(&self) -> Seq<char> {
        self.category@
    }
}

impl<'a> JavaLogger<'a> {
    /// The lock invariant: the shared state is well formed and belongs to the
    /// bridge's category.
    spec fn inner_inv(category: Seq<char>) -> spec_fn(InnerLogger<'a>) -> bool {
        |i: InnerLogger<'a>| i.wf() && i.category@ == category
    }

    /// A bridge is either fully constructed — logger object and all four
    /// handles cached, under the lock invariant of its category — or it does
    /// not exist.
    #[verifier::type_invariant]
    spec fn wf(self) -> bool {
        self.inner.pred() == Self::inner_inv(self.category@)
    }

    /// Create a new logger
    ///
    /// Locates the log4j factory class, obtains the logger object for
    /// `class_name`, and resolves the four leveled method handles on the
    /// Category class; on success the bridge is fully initialized and
    /// immutable. Failure at any step aborts construction entirely: no bridge
    /// is returned and the error is the one boundary kind.
    ///
    /// # Params
    /// - `class_name` The name of Class which should be used by log4j on the Java side
    ///
    /// # Error
    /// - If one of the underlying JNI calls fail
    pub fn new(env: &'a jni::JNIEnv<'a>, class_name: &str) -> (r: Result<Self, Error>)
        ensures
            r matches Ok(logger) ==> logger@ == class_name@,
            r matches Err(e) ==> e is RuntimeCallFailed,
    {
        let log_manager_class = match adapt(jni_api::find_class(env, "org/apache/log4j/LogManager")) {
            Ok(c) => c,
            Err(e) => return Err(e),
        };
        let name_value = match adapt(jni_api::new_string_value(env, class_name)) {
            Ok(v) => v,
            Err(e) => return Err(e),
        };
        let logger = match adapt(jni_api::call_static_object_method(
            env,
            &log_manager_class,
            "getLogger",
            "(Ljava/lang/String;)Lorg/apache/log4j/Logger;",
            name_value,
        )) {
            Ok(o) => o,
            Err(e) => return Err(e),
        };

        let category_class = match adapt(jni_api::find_class(env, "org/apache/log4j/Category")) {
            Ok(c) => c,
            Err(e) => return Err(e),
        };
        let sig = "(Ljava/lang/Object;)V";
        let error_method = match ResolvedMethod::resolve(env, &category_class, LogLevel::Error.method_name(), sig) {
            Ok(m) => m,
            Err(e) => return Err(e),
        };
        let warn_method = match ResolvedMethod::resolve(env, &category_class, LogLevel::Warn.method_name(), sig) {
            Ok(m) => m,
            Err(e) => return Err(e),
        };
        let info_method = match ResolvedMethod::resolve(env, &category_class, LogLevel::Info.method_name(), sig) {
            Ok(m) => m,
            Err(e) => return Err(e),
        };
        let debug_method = match ResolvedMethod::resolve(env, &category_class, LogLevel::Debug.method_name(), sig) {
            Ok(m) => m,
            Err(e) => return Err(e),
        };

        let inner = InnerLogger {
            env,
            logger,
            error_method,
            warn_method,
            info_method,
            debug_method,
            category: Ghost(class_name@),
        };
        let lock = RwLock::new(inner, Ghost(Self::inner_inv(class_name@)));
        Ok(JavaLogger { inner: lock, category: Ghost(class_name@) })
    }

    /// Log to log4j
    ///
    /// Acquires the bridge's exclusive lock, converts `content` into the
    /// runtime's string representation, and invokes the cached handle that
    /// was resolved under `level`'s method name. The lock is released whether
    /// the boundary call succeeds or fails, so a failed call never blocks a
    /// later one.
    ///
    /// # Error
    /// - If one of the underlying JNI calls fail
    pub fn log(&self, level: LogLevel, content: &str) -> (r: Result<(), Error>)
        ensures
            r matches Err(e) ==> e is RuntimeCallFailed,
    {
        proof {
            use_type_invariant(self);
        }
        let (inner, handle) = self.inner.acquire_write();
        let r = inner.invoke(inner.method_for(level), Ghost(level), content);
        handle.release_write(inner);
        r
    }

    /// Log to the ERROR level, without the level dispatch.
    ///
    /// # Error
    /// - If one of the underlying JNI calls fail
    pub fn log_error(&self, content: &str) -> (r: Result<(), Error>)
        ensures
            r matches Err(e) ==> e is RuntimeCallFailed,
    {
        proof {
            use_type_invariant(self);
        }
        let (inner, handle) = self.inner.acquire_write();
        let r = inner.log_error(content);
        handle.release_write(inner);
        r
    }

    /// Log to the WARN level, without the level dispatch.
    ///
    /// # Error
    /// - If one of the underlying JNI calls fail
    pub fn log_warn(&self, content: &str) -> (r: Result<(), Error>)
        ensures
            r matches Err(e) ==> e is RuntimeCallFailed,
    {
        proof {
            use_type_invariant(self);
        }
        let (inner, handle) = self.inner.acquire_write();
        let r = inner.log_warn(content);
        handle.release_write(inner);
        r
    }

    /// Log to the INFO level, without the level dispatch.
    ///
    /// # Error
    /// - If one of the underlying JNI calls fail
    pub fn log_info(&self, content: &str) -> (r: Result<(), Error>)
        ensures
            r matches Err(e) ==> e is RuntimeCallFailed,
    {
        proof {
            use_type_invariant(self);
        }
        let (inner, handle) = self.inner.acquire_write();
        let r = inner.log_info(content);
        handle.release_write(inner);
        r
    }

    /// Log to the DEBUG level, without the level dispatch.
    ///
    /// # Error
    /// - If one of the underlying JNI calls fail
    pub fn log_debug(&self, content: &str) -> (r: Result<(), Error>)
        ensures
            r matches Err(e) ==> e is RuntimeCallFailed,
    {
        proof {
            use_type_invariant(self);
        }
        let (inner, handle) = self.inner.acquire_write();
        let r = inner.log_debug(content);
        handle.release_write(inner);
        r
    }
}

} // verus!
