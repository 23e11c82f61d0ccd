//! Library metadata.
//!
//! The native library answers a one-shot version query with a
//! zero-terminated table of C strings.  The table is asserted to hold at
//! least five entries — version number, camlib list, compiler, dynamic
//! loading support and EXIF support — and a shorter table signals an
//! installed library that is incompatible with this binding.

use vstd::prelude::*;

verus! {

/// A structure that describes the version of the `libgphoto2` library.
///
/// The structure describes not only the version number, but also the state
/// of several compile-time configuration options of the `libgphoto2`
/// library.
#[derive(Debug)]
pub struct LibraryVersion {
    version: String,
    camlibs: String,
    compiler: String,
    ltdl: String,
    exif: String,
}

impl LibraryVersion {
    /// The version number string.
    pub closed spec fn spec_version(&self) -> Seq<char> {
        self.version@
    }

    /// The camlib list string.
    pub closed spec fn spec_camlibs(&self) -> Seq<char> {
        self.camlibs@
    }

    /// The compiler string.
    pub closed spec fn spec_compiler(&self) -> Seq<char> {
        self.compiler@
    }

    /// The dynamic loading support string.
    pub closed spec fn spec_ltdl(&self) -> Seq<char> {
        self.ltdl@
    }

    /// The EXIF support string.
    pub closed spec fn spec_exif(&self) -> Seq<char> {
        self.exif@
    }

    /// Returns the `libgphoto2` version number.
    ///
    /// The version number is a string representing the version number,
    /// e.g., `"2.4.16"`.
    pub fn version(&self) -> (r: &str)
        ensures
            r@ == self.spec_version(),
    {
        self.version.as_str()
    }

    /// Describes which camlibs were compiled with `libgphoto2`.
    pub fn camlibs(&self) -> (r: &str)
        ensures
            r@ == self.spec_camlibs(),
    {
        self.camlibs.as_str()
    }

    /// Returns the name of the C compiler that was used to compile
    /// `libgphoto2`.
    pub fn compiler(&self) -> (r: &str)
        ensures
            r@ == self.spec_compiler(),
    {
        self.compiler.as_str()
    }

    /// Returns a string describing whether `libgphoto2` was compiled for
    /// portable loading of camlibs.
    pub fn ltdl(&self) -> (r: &str)
        ensures
            r@ == self.spec_ltdl(),
    {
        self.ltdl.as_str()
    }

    /// Returns a string describing whether `libgphoto2` was compiled with
    /// support for handling EXIF metadata.
    pub fn exif(&self) -> (r: &str)
        ensures
            r@ == self.spec_exif(),
    {
        self.exif.as_str()
    }
}

/// Builds the version description from the string table the native library
/// answers the version query with: exactly the first five entries, in table
/// order.  A table shorter than five entries is a contract violation of the
/// installed library and is excluded by the precondition; the caller that
/// reads the native table must fail loudly on such a table instead of
/// calling this.
pub fn libgphoto2_version(table: Vec<String>) -> (r: LibraryVersion)
    requires
        table@.len() >= 5,
    ensures
        r.spec_version() == table@[0]@,
        r.spec_camlibs() == table@[1]@,
        r.spec_compiler() == table@[2]@,
        r.spec_ltdl() == table@[3]@,
        r.spec_exif() == table@[4]@,
{
    LibraryVersion {
        version: table[0].clone(),
        camlibs: table[1].clone(),
        compiler: table[2].clone(),
        ltdl: table[3].clone(),
        exif: table[4].clone(),
    }
}

} // verus!
