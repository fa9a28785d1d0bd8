//! Trusted declarations of the JNI handle types and thin wrappers around the
//! five JNI operations the bridge needs. Each wrapper's body only makes the
//! foreign call and converts its arguments and result; nothing is promised of
//! the outcome, since it depends on the state of the embedded virtual machine.

use jni::errors::Error as JniError;
use vstd::prelude::*;

verus! {

/// The JNI error type, declared so that it can stand in fields and results.
#[verifier::external_type_specification]
#[verifier::external_body]
pub struct ExJniError(JniError);

/// The per-thread JNI call context, declared so that it can stand in
/// signatures and fields.
#[verifier::external_type_specification]
#[verifier::external_body]
pub struct ExJNIEnv<'a>(jni::JNIEnv<'a>);

/// The raw FFI object type behind the JNI object references.
#[verifier::external_type_specification]
#[verifier::external_body]
pub struct ExJObjectRaw(jni::sys::_jobject);

/// An opaque reference to an object inside the virtual machine.
#[verifier::external_type_specification]
#[verifier::external_body]
pub struct ExJObject<'a>(jni::objects::JObject<'a>);

/// An opaque reference to a loaded class inside the virtual machine.
#[verifier::external_type_specification]
#[verifier::external_body]
pub struct ExJClass<'a>(jni::objects::JClass<'a>);

/// A resolved, reusable handle to one instance method of a class.
#[verifier::external_type_specification]
#[verifier::external_body]
pub struct ExJMethodID<'a>(jni::objects::JMethodID<'a>);

/// A JNI call argument value.
#[verifier::external_type_specification]
#[verifier::external_body]
pub struct ExJValue<'a>(jni::objects::JValue<'a>);

/// Relies on `JNIEnv::find_class`: looks a class up by its qualified name,
/// failing if the virtual machine has no class registered under that name.
#[verifier::external_body]
pub(crate) fn find_class<'a>(
    env: &jni::JNIEnv<'a>,
    name: &str,
) -> Result<jni::objects::JClass<'a>, jni::errors::Error> {
    env.find_class(name)
}

/// Relies on `JNIEnv::new_string`: converts native UTF-8 text into the
/// virtual machine's string representation, handed back as a call argument.
#[verifier::external_body]
pub(crate) fn new_string_value<'a>(
    env: &jni::JNIEnv<'a>,
    content: &str,
) -> Result<jni::objects::JValue<'a>, jni::errors::Error> {
    Ok(jni::objects::JValue::Object(env.new_string(content)?.into()))
}

/// Relies on `JNIEnv::call_static_method` and `JValue::l`: invokes a static
/// method by name and descriptor with one argument, and unwraps the returned
/// value as an object reference.
#[verifier::external_body]
pub(crate) fn call_static_object_method<'a>(
    env: &jni::JNIEnv<'a>,
    class: &jni::objects::JClass<'a>,
    name: &str,
    sig: &str,
    arg: jni::objects::JValue<'a>,
) -> Result<jni::objects::JObject<'a>, jni::errors::Error> {
    env.call_static_method(*class, name, sig, &[arg])?.l()
}

/// Relies on `JNIEnv::get_method_id`: resolves an instance method of a class
/// by name and descriptor into a handle that can be invoked repeatedly.
#[verifier::external_body]
pub(crate) fn get_method_id<'a>(
    env: &jni::JNIEnv<'a>,
    class: &jni::objects::JClass<'a>,
    name: &str,
    sig: &str,
) -> Result<jni::objects::JMethodID<'a>, jni::errors::Error> {
    env.get_method_id(*class, name, sig)
}

/// Relies on `JNIEnv::call_method_unchecked`: invokes a resolved void method
/// on an object with one argument, discarding the absent return value.
#[verifier::external_body]
pub(crate) fn call_void_method<'a>(
    env: &jni::JNIEnv<'a>,
    obj: &jni::objects::JObject<'a>,
    method: &jni::objects::JMethodID<'a>,
    arg: jni::objects::JValue<'a>,
) -> Result<(), jni::errors::Error> {
    env.call_method_unchecked(
        *obj,
        *method,
        jni::signature::JavaType::Primitive(jni::signature::Primitive::Void),
        &[arg],
    )?;
    Ok(())
}

} // verus!
