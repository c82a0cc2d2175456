use crate::mode::Mode;
use vstd::prelude::*;

verus! {

/// Mathematical model of `Config`.
pub ghost struct ConfigV {
    pub data_dir: Seq<char>,
    pub etc_dir: Seq<char>,
    pub host_id: Seq<char>,
    pub mode: Mode,
}

/// Per-process configuration: where data and key material live, this
/// process's stable host identifier, and the role it runs in.
///
/// Directory discovery, host-identifier files and command-line handling are
/// I/O concerns of the binary; the library only carries the resulting values.
#[derive(Clone, Debug)]
pub struct Config {
    data_dir: String,
    etc_dir: String,
    host_id: String,
    mode: Mode,
}

impl View for Config {
    type V = ConfigV;

    closed spec fn view(&self) -> ConfigV {
        ConfigV {
            data_dir: self.data_dir@,
            etc_dir: self.etc_dir@,
            host_id: self.host_id@,
            mode: self.mode,
        }
    }
}

impl Config {
    pub fn new(data_dir: String, etc_dir: String, host_id: String, mode: Mode) -> (r: Config)
        ensures
            r@ == (ConfigV {
                data_dir: data_dir@,
                etc_dir: etc_dir@,
                host_id: host_id@,
                mode,
            }),
    {
        Config { data_dir, etc_dir, host_id, mode }
    }

    pub fn data_dir(&self) -> (r: &String)
        ensures
            r@ == self@.data_dir,
    {
        &self.data_dir
    }

    pub fn etc_dir(&self) -> (r: &String)
        ensures
            r@ == self@.etc_dir,
    {
        &self.etc_dir
    }

    pub fn host_id(&self) -> (r: &String)
        ensures
            r@ == self@.host_id,
    {
        &self.host_id
    }

    pub fn mode(&self) -> (r: &Mode)
        ensures
            r == self@.mode,
    {
        &self.mode
    }
}

} // verus!
