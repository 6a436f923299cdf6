use crate::env::{expand, replace_env_vars};
use crate::error::StartupError;
use vstd::prelude::*;

verus! {

/// Settings of the streaming component that the startup reads.
#[derive(Debug, Clone)]
pub struct StreamConfig {
    pub log_dir: String,
    pub text_tokenizer_file: String,
    pub encodec_model_file: String,
    pub lm_model_file: String,
    pub encodec_num_codebooks: usize,
    /// Run the audio codec on the CPU whatever device was selected.
    pub use_cpu_for_encodec: bool,
}

/// The server configuration.
#[derive(Debug, Clone)]
pub struct Config {
    pub cert_dir: String,
    pub static_dir: String,
    pub addr: String,
    pub port: u16,
    pub stream: StreamConfig,
}

/// `name` joined onto directory `dir`: an absolute `name` stands alone, and a
/// separator is put between the two unless `dir` is empty or already ends in one.
pub open spec fn join_path(dir: Seq<char>, name: Seq<char>) -> Seq<char> {
    if name.len() > 0 && name[0] == '/' {
        name
    } else if dir.len() == 0 || dir.last() == '/' {
        dir + name
    } else {
        dir + seq!['/'] + name
    }
}

/// `r` is `parsed` with the environment placeholders of every path field
/// resolved against `vars`, and every other field as it was.
pub open spec fn is_resolved(parsed: Config, vars: Seq<(String, String)>, r: Config) -> bool {
    &&& r.cert_dir@ == expand(parsed.cert_dir@, vars)
    &&& r.static_dir@ == expand(parsed.static_dir@, vars)
    &&& r.addr@ == parsed.addr@
    &&& r.port == parsed.port
    &&& r.stream.log_dir@ == expand(parsed.stream.log_dir@, vars)
    &&& r.stream.text_tokenizer_file@ == expand(parsed.stream.text_tokenizer_file@, vars)
    &&& r.stream.encodec_model_file@ == expand(parsed.stream.encodec_model_file@, vars)
    &&& r.stream.lm_model_file@ == expand(parsed.stream.lm_model_file@, vars)
    &&& r.stream.encodec_num_codebooks == parsed.stream.encodec_num_codebooks
    &&& r.stream.use_cpu_for_encodec == parsed.stream.use_cpu_for_encodec
}

impl Config {
    /// Finishes loading a parsed configuration: each path field has its
    /// `${NAME}` placeholders replaced from `vars`, the process environment as
    /// a list of names and values. An unset variable reads as empty.
    pub fn load(parsed: Config, vars: &Vec<(String, String)>) -> (r: Config)
        ensures
            is_resolved(parsed, vars@, r),
    {
        let stream = StreamConfig {
            log_dir: replace_env_vars(parsed.stream.log_dir.as_str(), vars),
            text_tokenizer_file: replace_env_vars(parsed.stream.text_tokenizer_file.as_str(), vars),
            encodec_model_file: replace_env_vars(parsed.stream.encodec_model_file.as_str(), vars),
            lm_model_file: replace_env_vars(parsed.stream.lm_model_file.as_str(), vars),
            encodec_num_codebooks: parsed.stream.encodec_num_codebooks,
            use_cpu_for_encodec: parsed.stream.use_cpu_for_encodec,
        };
        Config {
            cert_dir: replace_env_vars(parsed.cert_dir.as_str(), vars),
            static_dir: replace_env_vars(parsed.static_dir.as_str(), vars),
            addr: parsed.addr,
            port: parsed.port,
            stream,
        }
    }

    /// The path of file `name` in the certificate directory.
    pub fn cert_path(&self, name: &str) -> (r: String)
        ensures
            r@ == join_path(self.cert_dir@, name@),
    {
        let dir = self.cert_dir.as_str();
        let dir_len = dir.unicode_len();
        if name.unicode_len() > 0 && name.get_char(0) == '/' {
            String::from_str(name)
        } else if dir_len == 0 || dir.get_char(dir_len - 1) == '/' {
            String::from_str(dir).concat(name)
        } else {
            proof {
                reveal_strlit("/");
            }
            assert("/"@ =~= seq!['/']);
            String::from_str(dir).concat("/").concat(name)
        }
    }

    /// The path of certificate file `name`, given whether a regular file
    /// stands at `self.cert_path(name)`; `MissingFile` with that path when
    /// none does.
    pub fn cert_file(&self, name: &str, is_file: bool) -> (r: Result<String, StartupError>)
        ensures
            is_file ==> (r matches Ok(p) && p@ == join_path(self.cert_dir@, name@)),
            !is_file ==> (r matches Err(StartupError::MissingFile(p)) && p@ == join_path(
                self.cert_dir@,
                name@,
            )),
    {
        let path = self.cert_path(name);
        if is_file {
            Ok(path)
        } else {
            Err(StartupError::MissingFile(path))
        }
    }
}

} // verus!
