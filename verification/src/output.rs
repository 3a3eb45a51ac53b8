//! Where outputs go: the output directory, the output file name, the
//! collision-free choice among candidate names, and the temporary name used
//! for atomic writes. Checking and creating directories and files is left to
//! the caller, which answers the resolver's questions.
use vstd::prelude::*;
use crate::codecs::new_simple_uuid;
use crate::errors::AppError;
use crate::models::{default_suffix, CompressionSettings, ImageFormat, OutputMode};
use crate::paths::{
    opt_chars, path_extension, path_file_stem, path_join, path_parent, spec_path_extension,
    spec_path_file_stem, spec_path_join, spec_path_parent, spec_to_lowercase, to_lowercase,
};
use crate::text::{decimal, push_decimal};

verus! {

/// The output directory: the chosen one, else the input's parent, else `"."`.
pub open spec fn spec_output_dir(input_path: Seq<char>, custom_dir: Option<Seq<char>>) -> Seq<char> {
    match custom_dir {
        Some(dir) => dir,
        None => match spec_path_parent(input_path) {
            Some(parent) => parent,
            None => "."@,
        },
    }
}

/// The input's file stem, or `"image"`.
pub open spec fn spec_input_stem(input_path: Seq<char>) -> Seq<char> {
    match spec_path_file_stem(input_path) {
        Some(stem) => stem,
        None => "image"@,
    }
}

/// The chosen suffix, or `"-compressed"`.
pub open spec fn spec_suffix(suffix: Option<Seq<char>>) -> Seq<char> {
    match suffix {
        Some(s) => s,
        None => default_suffix(),
    }
}

/// The input's extension names a JPEG (compared in lowercase).
pub open spec fn spec_input_is_jpeg(input_path: Seq<char>) -> bool {
    match spec_path_extension(input_path) {
        Some(ext) => spec_to_lowercase(ext) == "jpg"@ || spec_to_lowercase(ext) == "jpeg"@,
        None => false,
    }
}

/// The output file name: `{stem}{suffix}.{ext}`, except that a conversion of
/// a non-JPEG input to JPEG drops the suffix (`{stem}.jpg`).
pub open spec fn spec_base_name(
    input_path: Seq<char>,
    target: ImageFormat,
    mode: OutputMode,
    suffix: Option<Seq<char>>,
) -> Seq<char> {
    let stem = spec_input_stem(input_path);
    if mode == OutputMode::SameFormat || spec_input_is_jpeg(input_path) {
        stem + spec_suffix(suffix) + "."@ + target.spec_extension()
    } else {
        stem + "."@ + target.spec_extension()
    }
}

/// The candidate output paths, in the order they are tried: first the output
/// name itself, then `{stem}-{k}.{ext}` for `k = 1, 2, ...`, all in `dir`.
pub open spec fn candidate(dir: Seq<char>, base: Seq<char>, stem: Seq<char>, ext: Seq<char>, k: nat) -> Seq<
    char,
> {
    if k == 0 {
        spec_path_join(dir, base)
    } else {
        spec_path_join(dir, stem + "-"@ + decimal(k) + "."@ + ext)
    }
}

/// The search for an output path that names no existing file.
pub struct OutputResolver {
    /// The output directory.
    pub dir: String,
    /// The output file name tried first.
    pub base_name: String,
    /// The stem of the numbered candidates.
    pub stem: String,
    /// The extension of every candidate.
    pub ext: String,
    /// The number of candidates found taken so far.
    pub attempt: u64,
}

impl OutputResolver {
    /// The candidate currently proposed.
    pub open spec fn spec_current(self) -> Seq<char> {
        candidate(self.dir@, self.base_name@, self.stem@, self.ext@, self.attempt as nat)
    }

    /// Plans the output of the file at `input_path` written as `target` under
    /// `settings`. The numbered candidates take the stem of the first
    /// candidate's path.
    pub fn new(input_path: &str, target: ImageFormat, settings: &CompressionSettings) -> (r: Self)
        ensures
            r.dir@ == spec_output_dir(input_path@, opt_chars(settings.custom_output_dir)),
            r.base_name@ == spec_base_name(
                input_path@,
                target,
                settings.output_mode,
                opt_chars(settings.filename_suffix),
            ),
            r.stem@ == match spec_path_file_stem(spec_path_join(r.dir@, r.base_name@)) {
                Some(stem) => stem,
                None => spec_input_stem(input_path@),
            },
            r.ext@ == target.spec_extension(),
            r.attempt == 0,
    {
        let dir = match &settings.custom_output_dir {
            Some(custom) => custom.clone(),
            None => match path_parent(input_path) {
                Some(parent) => parent,
                None => String::from_str("."),
            },
        };
        let file_stem = match path_file_stem(input_path) {
            Some(stem) => stem,
            None => String::from_str("image"),
        };
        let ext = target.extension();
        let with_suffix = match settings.output_mode {
            OutputMode::SameFormat => true,
            OutputMode::ConvertToJpg => match path_extension(input_path) {
                Some(e) => {
                    let lower = to_lowercase(e.as_str());
                    let jpg = String::from_str("jpg");
                    let jpeg = String::from_str("jpeg");
                    lower == jpg || lower == jpeg
                },
                None => false,
            },
        };
        let mut base_name = file_stem.clone();
        if with_suffix {
            match &settings.filename_suffix {
                Some(s) => base_name.append(s.as_str()),
                None => base_name.append("-compressed"),
            }
        }
        base_name.append(".");
        base_name.append(ext);
        let first = path_join(dir.as_str(), base_name.as_str());
        let stem = match path_file_stem(first.as_str()) {
            Some(s) => s,
            None => file_stem,
        };
        OutputResolver { dir, base_name, stem, ext: String::from_str(ext), attempt: 0 }
    }

    /// The candidate path currently proposed.
    pub fn current(&self) -> (r: String)
        ensures
            r@ == self.spec_current(),
    {
        if self.attempt == 0 {
            path_join(self.dir.as_str(), self.base_name.as_str())
        } else {
            let mut name = self.stem.clone();
            name.append("-");
            push_decimal(&mut name, self.attempt);
            name.append(".");
            name.append(self.ext.as_str());
            path_join(self.dir.as_str(), name.as_str())
        }
    }

    /// Takes the answer to "does the current candidate exist?": a free
    /// candidate is the result; a taken one moves the search to the next
    /// candidate. A path is only ever chosen when it was reported free.
    pub fn answer(&mut self, exists: bool) -> (r: Option<String>)
        requires
            exists ==> old(self).attempt < u64::MAX,
        ensures
            !exists ==> (r matches Some(p) && p@ == old(self).spec_current() && *final(self)
                == *old(self)),
            exists ==> r is None && final(self).attempt == old(self).attempt + 1 && final(self).dir
                == old(self).dir && final(self).base_name == old(self).base_name && final(self).stem
                == old(self).stem && final(self).ext == old(self).ext,
    {
        if exists {
            self.attempt = self.attempt + 1;
            None
        } else {
            Some(self.current())
        }
    }
}

/// The error reported for a write target without a parent directory.
pub open spec fn no_parent_error() -> Seq<char> {
    "Target path has no parent directory"@
}

/// The temporary file written next to `target` before the atomic rename:
/// `.tmp_{pid}_{token}` in `target`'s parent directory, where `token` is a
/// fresh 32-character identifier.
pub fn temp_path_for(target: &str, pid: u32) -> (r: Result<String, AppError>)
    ensures
        spec_path_parent(target@) is None ==> (r matches Err(AppError::IoError(msg)) && msg@
            == no_parent_error()),
        spec_path_parent(target@) matches Some(parent) ==> (r matches Ok(p) && exists|
            token: Seq<char>,
        |
            #![auto]
            token.len() == 32 && p@ == spec_path_join(
                parent,
                ".tmp_"@ + decimal(pid as nat) + "_"@ + token,
            )),
{
    let parent = match path_parent(target) {
        Some(p) => p,
        None => {
            return Err(AppError::IoError(String::from_str("Target path has no parent directory")));
        },
    };
    let token = new_simple_uuid();
    let mut name = String::from_str(".tmp_");
    push_decimal(&mut name, pid as u64);
    name.append("_");
    name.append(token.as_str());
    let p = path_join(parent.as_str(), name.as_str());
    assert(p@ == spec_path_join(parent@, ".tmp_"@ + decimal(pid as nat) + "_"@ + token@));
    Ok(p)
}

} // verus!
