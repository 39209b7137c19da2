//! Descriptor walker: turns a plain-value model of a device's first
//! configuration descriptor into a flat list of endpoint records,
//! preserving the interface / alternate-setting / endpoint order in which
//! the descriptor declares them.

use vstd::prelude::*;

use crate::errors::DeviceError;

verus! {

/// One endpoint found on the device during a descriptor walk.
#[derive(Clone, Copy, Debug, PartialEq, Eq, Structural)]
pub struct Endpoint {
    /// Configuration value of the configuration the endpoint belongs to.
    pub config: u8,
    /// Interface number the endpoint belongs to.
    pub iface: u8,
    /// Alternate-setting number within the interface.
    pub setting: u8,
    /// Endpoint address (direction bit included).
    pub address: u8,
}

/// One alternate setting of one interface: its identification and the
/// addresses of its endpoint descriptors, in descriptor order.
#[derive(Clone, Debug)]
pub struct AltSetting {
    pub iface: u8,
    pub setting: u8,
    pub endpoint_addresses: Vec<u8>,
}

/// One interface of the configuration: its alternate settings in
/// descriptor order.
#[derive(Clone, Debug)]
pub struct InterfaceGroup {
    pub settings: Vec<AltSetting>,
}

/// Plain-value model of a device's first configuration descriptor: the
/// configuration value and every interface, in descriptor order.
#[derive(Clone, Debug)]
pub struct ConfigLayout {
    pub config_value: u8,
    pub interfaces: Vec<InterfaceGroup>,
}

/// Endpoint records of one list of endpoint addresses, in order.
pub open spec fn spec_address_endpoints(
    config_value: u8,
    iface: u8,
    setting: u8,
    addrs: Seq<u8>,
) -> Seq<Endpoint> {
    addrs.map(
        |k: int, a: u8|
            Endpoint { config: config_value, iface: iface, setting: setting, address: a },
    )
}

/// Endpoint records of one alternate setting, in order.
pub open spec fn spec_setting_endpoints(config_value: u8, s: AltSetting) -> Seq<Endpoint> {
    spec_address_endpoints(config_value, s.iface, s.setting, s.endpoint_addresses@)
}

/// Endpoint records of a list of alternate settings: the records of the
/// earlier settings first, then those of the later ones.
pub open spec fn spec_settings_endpoints(config_value: u8, settings: Seq<AltSetting>) -> Seq<
    Endpoint,
>
    decreases settings.len(),
{
    if settings.len() == 0 {
        Seq::empty()
    } else {
        spec_settings_endpoints(config_value, settings.drop_last()) + spec_setting_endpoints(
            config_value,
            settings.last(),
        )
    }
}

/// Endpoint records of a list of interfaces: the records of the earlier
/// interfaces first, then those of the later ones.
pub open spec fn spec_groups_endpoints(config_value: u8, groups: Seq<InterfaceGroup>) -> Seq<
    Endpoint,
>
    decreases groups.len(),
{
    if groups.len() == 0 {
        Seq::empty()
    } else {
        spec_groups_endpoints(config_value, groups.drop_last()) + spec_settings_endpoints(
            config_value,
            groups.last().settings@,
        )
    }
}

/// Every endpoint of the configuration, in the order the descriptor
/// declares them: interface by interface, alternate setting by alternate
/// setting, endpoint by endpoint.
pub open spec fn spec_config_endpoints(c: ConfigLayout) -> Seq<Endpoint> {
    spec_groups_endpoints(c.config_value, c.interfaces@)
}

/// Walks the configuration layout and emits one record per endpoint,
/// preserving descriptor order: index 0 of the result is the first
/// endpoint of the first alternate setting of the first interface.
#[verifier::loop_isolation(false)]
pub fn flatten_endpoints(layout: &ConfigLayout) -> (r: Vec<Endpoint>)
    ensures
        r@ == spec_config_endpoints(*layout),
{
    let config_value = layout.config_value;
    let mut out: Vec<Endpoint> = Vec::new();
    let mut i: usize = 0;
    while i < layout.interfaces.len()
        invariant
            i <= layout.interfaces.len(),
            out@ == spec_groups_endpoints(config_value, layout.interfaces@.take(i as int)),
        decreases layout.interfaces.len() - i,
    {
        let group = &layout.interfaces[i];
        let base = Ghost(out@);
        let mut j: usize = 0;
        while j < group.settings.len()
            invariant
                j <= group.settings.len(),
                out@ == base@ + spec_settings_endpoints(config_value, group.settings@.take(j as int)),
            decreases group.settings.len() - j,
        {
            let setting = &group.settings[j];
            let setting_base = Ghost(out@);
            let mut k: usize = 0;
            while k < setting.endpoint_addresses.len()
                invariant
                    k <= setting.endpoint_addresses.len(),
                    out@ == setting_base@ + spec_address_endpoints(
                        config_value,
                        setting.iface,
                        setting.setting,
                        setting.endpoint_addresses@.take(k as int),
                    ),
                decreases setting.endpoint_addresses.len() - k,
            {
                let address = setting.endpoint_addresses[k];
                out.push(
                    Endpoint {
                        config: config_value,
                        iface: setting.iface,
                        setting: setting.setting,
                        address,
                    },
                );
                proof {
                    let addrs = setting.endpoint_addresses@;
                    assert(spec_address_endpoints(
                        config_value,
                        setting.iface,
                        setting.setting,
                        addrs.take(k + 1),
                    ) =~= spec_address_endpoints(
                        config_value,
                        setting.iface,
                        setting.setting,
                        addrs.take(k as int),
                    ).push(
                        Endpoint {
                            config: config_value,
                            iface: setting.iface,
                            setting: setting.setting,
                            address: addrs[k as int],
                        },
                    ));
                    assert(out@ =~= setting_base@ + spec_address_endpoints(
                        config_value,
                        setting.iface,
                        setting.setting,
                        addrs.take(k + 1),
                    ));
                }
                k = k + 1;
            }
            proof {
                let settings = group.settings@;
                assert(settings.take(j + 1).drop_last() =~= settings.take(j as int));
                assert(settings.take(j + 1).last() == settings[j as int]);
                assert(setting.endpoint_addresses@.take(
                    setting.endpoint_addresses@.len() as int,
                ) =~= setting.endpoint_addresses@);
                assert(out@ =~= base@ + spec_settings_endpoints(
                    config_value,
                    settings.take(j + 1),
                ));
            }
            j = j + 1;
        }
        proof {
            let groups = layout.interfaces@;
            assert(groups.take(i + 1).drop_last() =~= groups.take(i as int));
            assert(groups.take(i + 1).last() == groups[i as int]);
            assert(group.settings@.take(group.settings@.len() as int) =~= group.settings@);
            assert(out@ =~= spec_groups_endpoints(config_value, groups.take(i + 1)));
        }
        i = i + 1;
    }
    proof {
        assert(layout.interfaces@.take(layout.interfaces@.len() as int) =~= layout.interfaces@);
    }
    out
}

/// Selects the endpoint the read policy asks for: the record at `index`
/// in descriptor order, or `NoEndpoints` when the walk found none there.
pub fn endpoint_at(endpoints: &Vec<Endpoint>, index: usize) -> (r: Result<Endpoint, DeviceError>)
    ensures
        index < endpoints@.len() ==> r == Result::<Endpoint, DeviceError>::Ok(endpoints@[index as int]),
        index >= endpoints@.len() ==> r == Result::<Endpoint, DeviceError>::Err(DeviceError::NoEndpoints),
{
    if index < endpoints.len() {
        Ok(endpoints[index])
    } else {
        Err(DeviceError::NoEndpoints)
    }
}

/// Endpoints of interfaces declared earlier always precede endpoints of
/// interfaces declared later: walking `groups + more` yields the records
/// of `groups` first, then those of `more`, each block in its own
/// declaration order.
pub proof fn lemma_groups_order(config_value: u8, groups: Seq<InterfaceGroup>, more: Seq<
    InterfaceGroup,
>)
    ensures
        spec_groups_endpoints(config_value, groups + more) == spec_groups_endpoints(
            config_value,
            groups,
        ) + spec_groups_endpoints(config_value, more),
    decreases more.len(),
{
    if more.len() == 0 {
        assert(groups + more =~= groups);
        assert(spec_groups_endpoints(config_value, groups) + spec_groups_endpoints(
            config_value,
            more,
        ) =~= spec_groups_endpoints(config_value, groups));
    } else {
        assert((groups + more).drop_last() =~= groups + more.drop_last());
        assert((groups + more).last() == more.last());
        lemma_groups_order(config_value, groups, more.drop_last());
        assert(spec_groups_endpoints(config_value, groups + more) =~= spec_groups_endpoints(
            config_value,
            groups,
        ) + spec_groups_endpoints(config_value, more));
    }
}

/// The same order statement one level down: within one interface, the
/// endpoints of earlier alternate settings precede those of later ones.
pub proof fn lemma_settings_order(config_value: u8, settings: Seq<AltSetting>, more: Seq<
    AltSetting,
>)
    ensures
        spec_settings_endpoints(config_value, settings + more) == spec_settings_endpoints(
            config_value,
            settings,
        ) + spec_settings_endpoints(config_value, more),
    decreases more.len(),
{
    if more.len() == 0 {
        assert(settings + more =~= settings);
        assert(spec_settings_endpoints(config_value, settings) + spec_settings_endpoints(
            config_value,
            more,
        ) =~= spec_settings_endpoints(config_value, settings));
    } else {
        assert((settings + more).drop_last() =~= settings + more.drop_last());
        assert((settings + more).last() == more.last());
        lemma_settings_order(config_value, settings, more.drop_last());
        assert(spec_settings_endpoints(config_value, settings + more) =~= spec_settings_endpoints(
            config_value,
            settings,
        ) + spec_settings_endpoints(config_value, more));
    }
}

} // verus!
