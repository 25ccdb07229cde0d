//! The cast command's options, read from its argument list.  Flags with
//! a value consume the following argument (even when that value cannot
//! be read); everything that is not a flag is a playlist input, in
//! order.

use vstd::prelude::*;
use vstd::string::*;

use crate::text::{
    all_digits, chars_is_lit, chars_of, dec_val, parse_millis, parse_u64, spec_millis, wf_decimal,
};

verus! {

/// The options of one cast run.
pub struct Config {
    pub target_ip: Option<String>,
    pub target_name: Option<String>,
    pub log_file: Option<String>,
    pub inputs: Vec<String>,
    pub myip: Option<String>,
    pub port: Option<u16>,
    pub subtitles: Option<String>,
    pub volume_permille: Option<u32>,
    pub loop_playlist: bool,
    pub quiet: bool,
}

/// The model of the options.
pub struct ConfigModel {
    pub target_ip: Option<Seq<char>>,
    pub target_name: Option<Seq<char>>,
    pub log_file: Option<Seq<char>>,
    pub inputs: Seq<Seq<char>>,
    pub myip: Option<Seq<char>>,
    pub port: Option<u16>,
    pub subtitles: Option<Seq<char>>,
    pub volume_permille: Option<u32>,
    pub loop_playlist: bool,
    pub quiet: bool,
}

impl View for Config {
    type V = ConfigModel;

    open spec fn view(&self) -> ConfigModel {
        ConfigModel {
            target_ip: match self.target_ip {
                Some(ref s) => Some(s@),
                None => None,
            },
            target_name: match self.target_name {
                Some(ref s) => Some(s@),
                None => None,
            },
            log_file: match self.log_file {
                Some(ref s) => Some(s@),
                None => None,
            },
            inputs: self.inputs.deep_view(),
            myip: match self.myip {
                Some(ref s) => Some(s@),
                None => None,
            },
            port: self.port,
            subtitles: match self.subtitles {
                Some(ref s) => Some(s@),
                None => None,
            },
            volume_permille: self.volume_permille,
            loop_playlist: self.loop_playlist,
            quiet: self.quiet,
        }
    }
}

/// The default configuration: nothing set, no inputs.
pub open spec fn spec_config_empty() -> ConfigModel {
    ConfigModel {
        target_ip: None,
        target_name: None,
        log_file: None,
        inputs: Seq::<Seq<char>>::empty(),
        myip: None,
        port: None,
        subtitles: None,
        volume_permille: None,
        loop_playlist: false,
        quiet: false,
    }
}

/// A port argument's value: digits that fit sixteen bits.
pub open spec fn spec_port_value(s: Seq<char>) -> Option<u16> {
    if s.len() > 0 && all_digits(s) && dec_val(s) < 0x10000 {
        Some(dec_val(s) as u16)
    } else {
        None
    }
}

/// A volume argument's value: a plain decimal fraction of one, read in
/// permille.
pub open spec fn spec_volume_value(s: Seq<char>) -> Option<u32> {
    if wf_decimal(s) && spec_millis(s) < 0x1_0000_0000 {
        Some(spec_millis(s) as u32)
    } else {
        None
    }
}

/// Reading the arguments from position `i` on, with `acc` read so far.
pub open spec fn spec_parse_args(args: Seq<Seq<char>>, i: int, acc: ConfigModel) -> ConfigModel
    decreases args.len() - i,
{
    if !(0 <= i < args.len()) {
        acc
    } else {
        let a = args[i];
        let has_value = i + 1 < args.len();
        if a == "--ip"@ {
            if has_value {
                spec_parse_args(args, i + 2, ConfigModel { target_ip: Some(args[i + 1]), ..acc })
            } else {
                spec_parse_args(args, i + 1, acc)
            }
        } else if a == "--name"@ {
            if has_value {
                spec_parse_args(args, i + 2, ConfigModel { target_name: Some(args[i + 1]), ..acc })
            } else {
                spec_parse_args(args, i + 1, acc)
            }
        } else if a == "--log"@ {
            if has_value {
                spec_parse_args(args, i + 2, ConfigModel { log_file: Some(args[i + 1]), ..acc })
            } else {
                spec_parse_args(args, i + 1, acc)
            }
        } else if a == "--myip"@ {
            if has_value {
                spec_parse_args(args, i + 2, ConfigModel { myip: Some(args[i + 1]), ..acc })
            } else {
                spec_parse_args(args, i + 1, acc)
            }
        } else if a == "--subtitles"@ {
            if has_value {
                spec_parse_args(args, i + 2, ConfigModel { subtitles: Some(args[i + 1]), ..acc })
            } else {
                spec_parse_args(args, i + 1, acc)
            }
        } else if a == "--port"@ {
            if has_value {
                spec_parse_args(
                    args,
                    i + 2,
                    match spec_port_value(args[i + 1]) {
                        Some(p) => ConfigModel { port: Some(p), ..acc },
                        None => acc,
                    },
                )
            } else {
                spec_parse_args(args, i + 1, acc)
            }
        } else if a == "--volume"@ {
            if has_value {
                spec_parse_args(
                    args,
                    i + 2,
                    match spec_volume_value(args[i + 1]) {
                        Some(v) => ConfigModel { volume_permille: Some(v), ..acc },
                        None => acc,
                    },
                )
            } else {
                spec_parse_args(args, i + 1, acc)
            }
        } else if a == "--loop"@ {
            spec_parse_args(args, i + 1, ConfigModel { loop_playlist: true, ..acc })
        } else if a == "--quiet"@ {
            spec_parse_args(args, i + 1, ConfigModel { quiet: true, ..acc })
        } else {
            spec_parse_args(args, i + 1, ConfigModel { inputs: acc.inputs.push(a), ..acc })
        }
    }
}

impl Config {
    /// Reads the cast options from an argument list.
    #[verifier::loop_isolation(false)]
    #[verifier::rlimit(100)]
    pub fn parse(args: &Vec<String>) -> (r: Config)
        ensures
            r@ == spec_parse_args(args.deep_view(), 0, spec_config_empty()),
    {
        let ghost dv = args.deep_view();
        let mut r = Config {
            target_ip: None,
            target_name: None,
            log_file: None,
            inputs: Vec::new(),
            myip: None,
            port: None,
            subtitles: None,
            volume_permille: None,
            loop_playlist: false,
            quiet: false,
        };
        proof {
            assert(dv.len() == args@.len());
            assert(r@.inputs =~= spec_config_empty().inputs);
            assert(r@ == spec_config_empty());
        }
        let mut i: usize = 0;
        while i < args.len()
            invariant
                i <= args@.len(),
                dv.len() == args@.len(),
                spec_parse_args(dv, 0, spec_config_empty()) == spec_parse_args(dv, i as int, r@),
            decreases args@.len() - i,
        {
            let a = chars_of(args[i].as_str());
            proof {
                assert(dv[i as int] == args@[i as int]@);
                if i + 1 < args@.len() {
                    assert(dv[i as int + 1] == args@[i as int + 1]@);
                }
            }
            let has_value = i + 1 < args.len();
            if chars_is_lit(&a, "--ip") {
                if has_value {
                    r.target_ip = Some(args[i + 1].clone());
                    i = i + 2;
                } else {
                    i = i + 1;
                }
            } else if chars_is_lit(&a, "--name") {
                if has_value {
                    r.target_name = Some(args[i + 1].clone());
                    i = i + 2;
                } else {
                    i = i + 1;
                }
            } else if chars_is_lit(&a, "--log") {
                if has_value {
                    r.log_file = Some(args[i + 1].clone());
                    i = i + 2;
                } else {
                    i = i + 1;
                }
            } else if chars_is_lit(&a, "--myip") {
                if has_value {
                    r.myip = Some(args[i + 1].clone());
                    i = i + 2;
                } else {
                    i = i + 1;
                }
            } else if chars_is_lit(&a, "--subtitles") {
                if has_value {
                    r.subtitles = Some(args[i + 1].clone());
                    i = i + 2;
                } else {
                    i = i + 1;
                }
            } else if chars_is_lit(&a, "--port") {
                if has_value {
                    let pv = chars_of(args[i + 1].as_str());
                    match parse_u64(&pv) {
                        Some(p) => {
                            if p < 0x10000 {
                                r.port = Some(p as u16);
                            }
                        },
                        None => {},
                    }
                    i = i + 2;
                } else {
                    i = i + 1;
                }
            } else if chars_is_lit(&a, "--volume") {
                if has_value {
                    let vv = chars_of(args[i + 1].as_str());
                    match parse_millis(&vv) {
                        Some(v) => {
                            if v < 0x1_0000_0000u64 {
                                r.volume_permille = Some(v as u32);
                            }
                        },
                        None => {},
                    }
                    i = i + 2;
                } else {
                    i = i + 1;
                }
            } else if chars_is_lit(&a, "--loop") {
                r.loop_playlist = true;
                i = i + 1;
            } else if chars_is_lit(&a, "--quiet") {
                r.quiet = true;
                i = i + 1;
            } else {
                let ghost pre = r@;
                r.inputs.push(args[i].clone());
                proof {
                    assert(r@.inputs =~= pre.inputs.push(dv[i as int]));
                    assert(r@ == (ConfigModel { inputs: pre.inputs.push(dv[i as int]), ..pre }));
                }
                i = i + 1;
            }
        }
        r
    }
}

} // verus!
