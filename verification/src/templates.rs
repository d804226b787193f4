//! The data each page fragment is rendered from. The web layer holds the
//! markup; these structs carry exactly what it interpolates.
use vstd::prelude::*;

use crate::entries::FileInfo;

verus! {

/// The index page: rendered from no data.
pub struct IndexTemplate {}

/// The remote file table: the rendered listing of the FTP server's current
/// directory.
pub struct FilesTableTemplate {
    pub files: Vec<FileInfo>,
}

/// The local file table: the rendered listing of the local cursor's current
/// directory.
pub struct LocalFilesTableTemplate {
    pub files: Vec<FileInfo>,
}

} // verus!
