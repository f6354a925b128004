use vstd::prelude::*;

verus! {

/// The hook for previews made by a script: where a script is configured,
/// the values it would be given are worked out, and no process is started.
pub fn preview_with_script(preview_script: Option<&String>, preview_images: bool) {
    if let Some(_script_path) = preview_script {
        let _preview_image: u8 = if preview_images { 1 } else { 0 };
    }
}

} // verus!
