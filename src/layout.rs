//! Where things live under the application directory: the model artifact,
//! the inference script and staged uploads.
use vstd::prelude::*;
use crate::resolver::Platform;

verus! {

pub open spec fn separator(platform: Platform) -> char {
    match platform {
        Platform::Posix => '/',
        Platform::Windows => '\\',
    }
}

/// `name` appended to `dir` as one more path component.
pub open spec fn joined(dir: Seq<char>, name: Seq<char>, platform: Platform) -> Seq<char> {
    if dir.len() == 0 {
        name
    } else if dir.last() == separator(platform) {
        dir + name
    } else {
        dir.push(separator(platform)) + name
    }
}

/// Appends `name` to the path `dir`, adding a separator unless `dir` is empty
/// or already ends with one.
pub fn join(dir: &str, name: &str, platform: Platform) -> (r: String)
    ensures
        r@ == joined(dir@, name@, platform),
{
    let n = dir.unicode_len();
    if n == 0 {
        return String::from_str(name);
    }
    let mut out = String::from_str(dir);
    let last = dir.get_char(n - 1);
    let sep = match platform {
        Platform::Posix => '/',
        Platform::Windows => '\\',
    };
    if last != sep {
        let s = match platform {
            Platform::Posix => "/",
            Platform::Windows => "\\",
        };
        proof {
            reveal_strlit("/");
            reveal_strlit("\\");
        }
        out.append(s);
        assert(out@ =~= dir@.push(separator(platform)));
    }
    out.append(name);
    out
}

pub open spec fn upload_dir_of(app_dir: Seq<char>, platform: Platform) -> Seq<char> {
    joined(app_dir, "uploads"@, platform)
}

pub open spec fn staged_path_of(app_dir: Seq<char>, file_name: Seq<char>, platform: Platform) -> Seq<char> {
    joined(upload_dir_of(app_dir, platform), file_name, platform)
}

pub open spec fn model_path_of(app_dir: Seq<char>, platform: Platform) -> Seq<char> {
    joined(
        joined(joined(app_dir, "resources"@, platform), "model"@, platform),
        "result_improved.pth"@,
        platform,
    )
}

pub open spec fn script_path_of(app_dir: Seq<char>, platform: Platform) -> Seq<char> {
    joined(joined(app_dir, "python"@, platform), "inference.py"@, platform)
}

/// Where an upload is staged: the `uploads` directory to create (with its
/// ancestors) and the file inside it, named after the caller's file name.
pub struct UploadTarget {
    pub directory: String,
    pub file: String,
}

/// The staging target of `file_name` under `app_dir`. It depends on the two
/// names alone, so staging under the same name always writes the same file.
pub fn upload_target(app_dir: &str, file_name: &str, platform: Platform) -> (r: UploadTarget)
    ensures
        r.directory@ == upload_dir_of(app_dir@, platform),
        r.file@ == staged_path_of(app_dir@, file_name@, platform),
{
    let directory = join(app_dir, "uploads", platform);
    let file = join(directory.as_str(), file_name, platform);
    UploadTarget { directory, file }
}

/// The model artifact under `app_dir`.
pub fn model_path(app_dir: &str, platform: Platform) -> (r: String)
    ensures
        r@ == model_path_of(app_dir@, platform),
{
    let resources = join(app_dir, "resources", platform);
    let model_dir = join(resources.as_str(), "model", platform);
    join(model_dir.as_str(), "result_improved.pth", platform)
}

/// The inference script under `app_dir`.
pub fn script_path(app_dir: &str, platform: Platform) -> (r: String)
    ensures
        r@ == script_path_of(app_dir@, platform),
{
    let python_dir = join(app_dir, "python", platform);
    join(python_dir.as_str(), "inference.py", platform)
}

} // verus!
