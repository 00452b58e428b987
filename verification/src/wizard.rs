//! The configuration assembler: one linear pass over the operator's input
//! that collects the six prompted fields in a fixed order, derives the
//! cache description, branches once on the selected chain profile and
//! produces the configuration aggregate.
//!
//! The assembler is given the input stream as the lines the operator typed
//! and the platform-resolved defaults; showing prompts, reading lines and
//! persisting the result stay with the surrounding binary. If a
//! configuration file already exists the whole run fails before the first
//! field is looked at, and nothing may be overwritten.

use vstd::pervasive::unreached;
use vstd::prelude::*;

use crate::config::{
    build_farmer, build_node, spec_build_farmer, spec_build_node, CacheConfig, CacheConfigView,
    ChainConfig, Config, ConfigView, CACHE_SIZE, DEFAULT_PLOT_SIZE,
};
use crate::errors::FatalError;
use crate::prompt::{
    collect_field, collect_spec, lemma_collect_sound, opt_view, Field, FieldValue, FieldValueV,
};

verus! {

/// The platform-resolved default values the wizard offers: the operator's
/// username as the node name, and the platform's directories for plots, the
/// node and the cache. They are trusted as pre-validated and are accepted
/// as given when the operator answers a prompt with an empty line.
pub struct WizardDefaults {
    pub node_name: String,
    pub plot_directory: String,
    pub node_directory: String,
    pub cache_directory: String,
}

/// The mathematical value of a [`WizardDefaults`].
pub struct WizardDefaultsView {
    pub node_name: Seq<char>,
    pub plot_directory: Seq<char>,
    pub node_directory: Seq<char>,
    pub cache_directory: Seq<char>,
}

impl View for WizardDefaults {
    type V = WizardDefaultsView;

    open spec fn view(&self) -> WizardDefaultsView {
        WizardDefaultsView {
            node_name: self.node_name@,
            plot_directory: self.plot_directory@,
            node_directory: self.node_directory@,
            cache_directory: self.cache_directory@,
        }
    }
}

/// What one whole wizard run yields: a fatal failure where a configuration
/// file already exists or the input stream ends first, and otherwise the
/// aggregate assembled from the six fields — reward address (no default),
/// node name (defaults to the username), plot location, plot size, chain
/// profile (defaults to the production test network) and executor flag —
/// with the cache derived from the platform default location and the fixed
/// cache size, and both sub-records built under the selected profile.
pub open spec fn wizard_spec(
    config_exists: bool,
    lines: Seq<Seq<char>>,
    d: WizardDefaultsView,
) -> Result<ConfigView, FatalError> {
    if config_exists {
        Err(FatalError::ConfigAlreadyExists)
    } else {
        match collect_spec(Field::RewardAddress, lines, 0, None) {
            Err(e) => Err(e),
            Ok((address, i1)) => match collect_spec(
                Field::NodeName,
                lines,
                i1,
                Some(FieldValueV::Name(d.node_name)),
            ) {
                Err(e) => Err(e),
                Ok((name, i2)) => match collect_spec(
                    Field::PlotDirectory,
                    lines,
                    i2,
                    Some(FieldValueV::Directory(d.plot_directory)),
                ) {
                    Err(e) => Err(e),
                    Ok((plot_dir, i3)) => match collect_spec(
                        Field::PlotSize,
                        lines,
                        i3,
                        Some(FieldValueV::Size(DEFAULT_PLOT_SIZE)),
                    ) {
                        Err(e) => Err(e),
                        Ok((size, i4)) => match collect_spec(
                            Field::Chain,
                            lines,
                            i4,
                            Some(FieldValueV::ChainChoice(ChainConfig::Gemini3c)),
                        ) {
                            Err(e) => Err(e),
                            Ok((chain_choice, i5)) => match collect_spec(
                                Field::ExecutorFlag,
                                lines,
                                i5,
                                Some(FieldValueV::Flag(false)),
                            ) {
                                Err(e) => Err(e),
                                Ok((flag, _)) => {
                                    let chain = chain_choice->ChainChoice_0;
                                    Ok(
                                        ConfigView {
                                            chain,
                                            farmer: spec_build_farmer(
                                                chain,
                                                address->Address_0,
                                                plot_dir->Directory_0,
                                                size->Size_0,
                                                CacheConfigView {
                                                    directory: d.cache_directory,
                                                    size_bytes: CACHE_SIZE,
                                                },
                                            ),
                                            node: spec_build_node(
                                                chain,
                                                d.node_directory,
                                                name->Name_0,
                                                flag->Flag_0,
                                            ),
                                        },
                                    )
                                },
                            },
                        },
                    },
                },
            },
        }
    }
}

/// Runs the whole wizard over the operator's input lines: exactly what
/// [`wizard_spec`] says, and every aggregate it yields satisfies the
/// aggregate's invariant. Where a configuration file already exists it
/// fails at once, before any field is read.
pub fn run_wizard(config_exists: bool, lines: &Vec<String>, defaults: &WizardDefaults) -> (r: Result<
    Config,
    FatalError,
>)
    ensures
        (r is Ok) == (wizard_spec(config_exists, lines.deep_view(), defaults@) is Ok),
        r is Ok ==> r->Ok_0@ == wizard_spec(config_exists, lines.deep_view(), defaults@)->Ok_0,
        r is Err ==> r->Err_0 == wizard_spec(config_exists, lines.deep_view(), defaults@)->Err_0,
        r is Ok ==> Config::spec_wf(r->Ok_0@),
        config_exists ==> r == Err::<Config, FatalError>(FatalError::ConfigAlreadyExists),
{
    if config_exists {
        return Err(FatalError::ConfigAlreadyExists);
    }
    let ghost l: Seq<Seq<char>> = lines.deep_view();

    let (address_value, i1) = match collect_field(Field::RewardAddress, lines, 0, None) {
        Ok(p) => p,
        Err(e) => return Err(e),
    };
    proof {
        lemma_collect_sound(Field::RewardAddress, l, 0, None);
    }
    let address: String = match address_value {
        FieldValue::Address(a) => a,
        _ => unreached(),
    };

    let name_default = Some(FieldValue::Name(defaults.node_name.clone()));
    assert(opt_view(name_default) == Some(FieldValueV::Name(defaults@.node_name)));
    let (name_value, i2) = match collect_field(Field::NodeName, lines, i1, name_default) {
        Ok(p) => p,
        Err(e) => return Err(e),
    };
    proof {
        lemma_collect_sound(Field::NodeName, l, i1 as int, Some(FieldValueV::Name(defaults@.node_name)));
    }
    let node_name: String = match name_value {
        FieldValue::Name(n) => n,
        _ => unreached(),
    };

    let dir_default = Some(FieldValue::Directory(defaults.plot_directory.clone()));
    assert(opt_view(dir_default) == Some(FieldValueV::Directory(defaults@.plot_directory)));
    let (dir_value, i3) = match collect_field(Field::PlotDirectory, lines, i2, dir_default) {
        Ok(p) => p,
        Err(e) => return Err(e),
    };
    proof {
        lemma_collect_sound(
            Field::PlotDirectory,
            l,
            i2 as int,
            Some(FieldValueV::Directory(defaults@.plot_directory)),
        );
    }
    let plot_directory: String = match dir_value {
        FieldValue::Directory(p) => p,
        _ => unreached(),
    };

    let (size_value, i4) = match collect_field(
        Field::PlotSize,
        lines,
        i3,
        Some(FieldValue::Size(DEFAULT_PLOT_SIZE)),
    ) {
        Ok(p) => p,
        Err(e) => return Err(e),
    };
    proof {
        lemma_collect_sound(Field::PlotSize, l, i3 as int, Some(FieldValueV::Size(DEFAULT_PLOT_SIZE)));
    }
    let plot_size: u64 = match size_value {
        FieldValue::Size(n) => n,
        _ => unreached(),
    };

    let (chain_value, i5) = match collect_field(
        Field::Chain,
        lines,
        i4,
        Some(FieldValue::ChainChoice(ChainConfig::Gemini3c)),
    ) {
        Ok(p) => p,
        Err(e) => return Err(e),
    };
    proof {
        lemma_collect_sound(
            Field::Chain,
            l,
            i4 as int,
            Some(FieldValueV::ChainChoice(ChainConfig::Gemini3c)),
        );
    }
    let chain: ChainConfig = match chain_value {
        FieldValue::ChainChoice(c) => c,
        _ => unreached(),
    };

    let (flag_value, _i6) = match collect_field(
        Field::ExecutorFlag,
        lines,
        i5,
        Some(FieldValue::Flag(false)),
    ) {
        Ok(p) => p,
        Err(e) => return Err(e),
    };
    proof {
        lemma_collect_sound(Field::ExecutorFlag, l, i5 as int, Some(FieldValueV::Flag(false)));
    }
    let is_executor: bool = match flag_value {
        FieldValue::Flag(b) => b,
        _ => unreached(),
    };

    let cache: CacheConfig = match CacheConfig::new(defaults.cache_directory.clone(), CACHE_SIZE) {
        Ok(c) => c,
        Err(_) => unreached(),
    };

    let farmer = build_farmer(&chain, address, plot_directory, plot_size, cache);
    let node = build_node(&chain, defaults.node_directory.clone(), node_name, is_executor);
    Ok(Config { chain, farmer, node })
}

} // verus!
