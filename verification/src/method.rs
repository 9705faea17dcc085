//! The JSON-RPC methods understood by the devices and their wire names.

use vstd::prelude::*;
use vstd::string::StringSliceAdditionalSpecFns;

verus! {

/// All methods available, both for request and response.
#[derive(Debug, Clone, Copy, PartialEq, Eq)]
pub enum Method {
    GetPower,
    GetSystemConfig,
    GetModelConfig,
    GetUserConfig,
    GetWifiConfig,
    GetDevInfo,
    GetPilot,
    SetPilot,
    SetState,
    SetDevInfo,
    SetSchd,
    SetSchdPset,
    SetWifiConfig,
    SetFavs,
    Reset,
    Reboot,
    SyncPilot,
    SyncUserConfig,
    SyncSchdPset,
    SyncBroadcastPilot,
    SyncSystemConfig,
    SyncConfig,
    SyncAlarm,
    Pulse,
    Registration,
    Ping,
    RegisteredDevice,
}

/// The name under which `m` travels in the `"method"` member of a message.
pub open spec fn method_name(m: Method) -> Seq<char> {
    match m {
        Method::GetPower => "getPower"@,
        Method::GetSystemConfig => "getSystemConfig"@,
        Method::GetModelConfig => "getModelConfig"@,
        Method::GetUserConfig => "getUserConfig"@,
        Method::GetWifiConfig => "getWifiConfig"@,
        Method::GetDevInfo => "getDevInfo"@,
        Method::GetPilot => "getPilot"@,
        Method::SetPilot => "setPilot"@,
        Method::SetState => "setState"@,
        Method::SetDevInfo => "setDevInfo"@,
        Method::SetSchd => "setSchd"@,
        Method::SetSchdPset => "setSchdPset"@,
        Method::SetWifiConfig => "setWifiConfig"@,
        Method::SetFavs => "setFavs"@,
        Method::Reset => "reset"@,
        Method::Reboot => "reboot"@,
        Method::SyncPilot => "syncPilot"@,
        Method::SyncUserConfig => "syncUserConfig"@,
        Method::SyncSchdPset => "syncSchdPset"@,
        Method::SyncBroadcastPilot => "syncBroadcastPilot"@,
        Method::SyncSystemConfig => "syncSystemConfig"@,
        Method::SyncConfig => "syncConfig"@,
        Method::SyncAlarm => "syncAlarm"@,
        Method::Pulse => "pulse"@,
        Method::Registration => "registration"@,
        Method::Ping => "PING"@,
        Method::RegisteredDevice => "REGISTERED_DEVICE"@,
    }
}

/// The method whose wire name is `name`, if there is one.
pub open spec fn method_named(name: Seq<char>) -> Option<Method> {
    if name == "getPower"@ {
        Some(Method::GetPower)
    } else if name == "getSystemConfig"@ {
        Some(Method::GetSystemConfig)
    } else if name == "getModelConfig"@ {
        Some(Method::GetModelConfig)
    } else if name == "getUserConfig"@ {
        Some(Method::GetUserConfig)
    } else if name == "getWifiConfig"@ {
        Some(Method::GetWifiConfig)
    } else if name == "getDevInfo"@ {
        Some(Method::GetDevInfo)
    } else if name == "getPilot"@ {
        Some(Method::GetPilot)
    } else if name == "setPilot"@ {
        Some(Method::SetPilot)
    } else if name == "setState"@ {
        Some(Method::SetState)
    } else if name == "setDevInfo"@ {
        Some(Method::SetDevInfo)
    } else if name == "setSchd"@ {
        Some(Method::SetSchd)
    } else if name == "setSchdPset"@ {
        Some(Method::SetSchdPset)
    } else if name == "setWifiConfig"@ {
        Some(Method::SetWifiConfig)
    } else if name == "setFavs"@ {
        Some(Method::SetFavs)
    } else if name == "reset"@ {
        Some(Method::Reset)
    } else if name == "reboot"@ {
        Some(Method::Reboot)
    } else if name == "syncPilot"@ {
        Some(Method::SyncPilot)
    } else if name == "syncUserConfig"@ {
        Some(Method::SyncUserConfig)
    } else if name == "syncSchdPset"@ {
        Some(Method::SyncSchdPset)
    } else if name == "syncBroadcastPilot"@ {
        Some(Method::SyncBroadcastPilot)
    } else if name == "syncSystemConfig"@ {
        Some(Method::SyncSystemConfig)
    } else if name == "syncConfig"@ {
        Some(Method::SyncConfig)
    } else if name == "syncAlarm"@ {
        Some(Method::SyncAlarm)
    } else if name == "pulse"@ {
        Some(Method::Pulse)
    } else if name == "registration"@ {
        Some(Method::Registration)
    } else if name == "PING"@ {
        Some(Method::Ping)
    } else if name == "REGISTERED_DEVICE"@ {
        Some(Method::RegisteredDevice)
    } else {
        None
    }
}


/// Reading back the wire name of any method yields that method again:
/// the name table is a bijection between methods and their names.
pub proof fn lemma_method_name_roundtrip(m: Method)
    ensures
        method_named(method_name(m)) == Some(m),
{
    let name = method_name(m);
    match m {
        Method::GetPower => {
            reveal_strlit("getPower");
        }
        Method::GetSystemConfig => {
            reveal_strlit("getSystemConfig");
            reveal_strlit("getPower");
            assert(name.len() != "getPower"@.len());
        }
        Method::GetModelConfig => {
            reveal_strlit("getModelConfig");
            reveal_strlit("getPower");
            assert(name.len() != "getPower"@.len());
            reveal_strlit("getSystemConfig");
            assert(name.len() != "getSystemConfig"@.len());
        }
        Method::GetUserConfig => {
            reveal_strlit("getUserConfig");
            reveal_strlit("getPower");
            assert(name.len() != "getPower"@.len());
            reveal_strlit("getSystemConfig");
            assert(name.len() != "getSystemConfig"@.len());
            reveal_strlit("getModelConfig");
            assert(name.len() != "getModelConfig"@.len());
        }
        Method::GetWifiConfig => {
            reveal_strlit("getWifiConfig");
            reveal_strlit("getPower");
            assert(name.len() != "getPower"@.len());
            reveal_strlit("getSystemConfig");
            assert(name.len() != "getSystemConfig"@.len());
            reveal_strlit("getModelConfig");
            assert(name.len() != "getModelConfig"@.len());
            reveal_strlit("getUserConfig");
            assert(name[3] != "getUserConfig"@[3]);
        }
        Method::GetDevInfo => {
            reveal_strlit("getDevInfo");
            reveal_strlit("getPower");
            assert(name.len() != "getPower"@.len());
            reveal_strlit("getSystemConfig");
            assert(name.len() != "getSystemConfig"@.len());
            reveal_strlit("getModelConfig");
            assert(name.len() != "getModelConfig"@.len());
            reveal_strlit("getUserConfig");
            assert(name.len() != "getUserConfig"@.len());
            reveal_strlit("getWifiConfig");
            assert(name.len() != "getWifiConfig"@.len());
        }
        Method::GetPilot => {
            reveal_strlit("getPilot");
            reveal_strlit("getPower");
            assert(name[4] != "getPower"@[4]);
            reveal_strlit("getSystemConfig");
            assert(name.len() != "getSystemConfig"@.len());
            reveal_strlit("getModelConfig");
            assert(name.len() != "getModelConfig"@.len());
            reveal_strlit("getUserConfig");
            assert(name.len() != "getUserConfig"@.len());
            reveal_strlit("getWifiConfig");
            assert(name.len() != "getWifiConfig"@.len());
            reveal_strlit("getDevInfo");
            assert(name.len() != "getDevInfo"@.len());
        }
        Method::SetPilot => {
            reveal_strlit("setPilot");
            reveal_strlit("getPower");
            assert(name[0] != "getPower"@[0]);
            reveal_strlit("getSystemConfig");
            assert(name.len() != "getSystemConfig"@.len());
            reveal_strlit("getModelConfig");
            assert(name.len() != "getModelConfig"@.len());
            reveal_strlit("getUserConfig");
            assert(name.len() != "getUserConfig"@.len());
            reveal_strlit("getWifiConfig");
            assert(name.len() != "getWifiConfig"@.len());
            reveal_strlit("getDevInfo");
            assert(name.len() != "getDevInfo"@.len());
            reveal_strlit("getPilot");
            assert(name[0] != "getPilot"@[0]);
        }
        Method::SetState => {
            reveal_strlit("setState");
            reveal_strlit("getPower");
            assert(name[0] != "getPower"@[0]);
            reveal_strlit("getSystemConfig");
            assert(name.len() != "getSystemConfig"@.len());
            reveal_strlit("getModelConfig");
            assert(name.len() != "getModelConfig"@.len());
            reveal_strlit("getUserConfig");
            assert(name.len() != "getUserConfig"@.len());
            reveal_strlit("getWifiConfig");
            assert(name.len() != "getWifiConfig"@.len());
            reveal_strlit("getDevInfo");
            assert(name.len() != "getDevInfo"@.len());
            reveal_strlit("getPilot");
            assert(name[0] != "getPilot"@[0]);
            reveal_strlit("setPilot");
            assert(name[3] != "setPilot"@[3]);
        }
        Method::SetDevInfo => {
            reveal_strlit("setDevInfo");
            reveal_strlit("getPower");
            assert(name.len() != "getPower"@.len());
            reveal_strlit("getSystemConfig");
            assert(name.len() != "getSystemConfig"@.len());
            reveal_strlit("getModelConfig");
            assert(name.len() != "getModelConfig"@.len());
            reveal_strlit("getUserConfig");
            assert(name.len() != "getUserConfig"@.len());
            reveal_strlit("getWifiConfig");
            assert(name.len() != "getWifiConfig"@.len());
            reveal_strlit("getDevInfo");
            assert(name[0] != "getDevInfo"@[0]);
            reveal_strlit("getPilot");
            assert(name.len() != "getPilot"@.len());
            reveal_strlit("setPilot");
            assert(name.len() != "setPilot"@.len());
            reveal_strlit("setState");
            assert(name.len() != "setState"@.len());
        }
        Method::SetSchd => {
            reveal_strlit("setSchd");
            reveal_strlit("getPower");
            assert(name.len() != "getPower"@.len());
            reveal_strlit("getSystemConfig");
            assert(name.len() != "getSystemConfig"@.len());
            reveal_strlit("getModelConfig");
            assert(name.len() != "getModelConfig"@.len());
            reveal_strlit("getUserConfig");
            assert(name.len() != "getUserConfig"@.len());
            reveal_strlit("getWifiConfig");
            assert(name.len() != "getWifiConfig"@.len());
            reveal_strlit("getDevInfo");
            assert(name.len() != "getDevInfo"@.len());
            reveal_strlit("getPilot");
            assert(name.len() != "getPilot"@.len());
            reveal_strlit("setPilot");
            assert(name.len() != "setPilot"@.len());
            reveal_strlit("setState");
            assert(name.len() != "setState"@.len());
            reveal_strlit("setDevInfo");
            assert(name.len() != "setDevInfo"@.len());
        }
        Method::SetSchdPset => {
            reveal_strlit("setSchdPset");
            reveal_strlit("getPower");
            assert(name.len() != "getPower"@.len());
            reveal_strlit("getSystemConfig");
            assert(name.len() != "getSystemConfig"@.len());
            reveal_strlit("getModelConfig");
            assert(name.len() != "getModelConfig"@.len());
            reveal_strlit("getUserConfig");
            assert(name.len() != "getUserConfig"@.len());
            reveal_strlit("getWifiConfig");
            assert(name.len() != "getWifiConfig"@.len());
            reveal_strlit("getDevInfo");
            assert(name.len() != "getDevInfo"@.len());
            reveal_strlit("getPilot");
            assert(name.len() != "getPilot"@.len());
            reveal_strlit("setPilot");
            assert(name.len() != "setPilot"@.len());
            reveal_strlit("setState");
            assert(name.len() != "setState"@.len());
            reveal_strlit("setDevInfo");
            assert(name.len() != "setDevInfo"@.len());
            reveal_strlit("setSchd");
            assert(name.len() != "setSchd"@.len());
        }
        Method::SetWifiConfig => {
            reveal_strlit("setWifiConfig");
            reveal_strlit("getPower");
            assert(name.len() != "getPower"@.len());
            reveal_strlit("getSystemConfig");
            assert(name.len() != "getSystemConfig"@.len());
            reveal_strlit("getModelConfig");
            assert(name.len() != "getModelConfig"@.len());
            reveal_strlit("getUserConfig");
            assert(name[0] != "getUserConfig"@[0]);
            reveal_strlit("getWifiConfig");
            assert(name[0] != "getWifiConfig"@[0]);
            reveal_strlit("getDevInfo");
            assert(name.len() != "getDevInfo"@.len());
            reveal_strlit("getPilot");
            assert(name.len() != "getPilot"@.len());
            reveal_strlit("setPilot");
            assert(name.len() != "setPilot"@.len());
            reveal_strlit("setState");
            assert(name.len() != "setState"@.len());
            reveal_strlit("setDevInfo");
            assert(name.len() != "setDevInfo"@.len());
            reveal_strlit("setSchd");
            assert(name.len() != "setSchd"@.len());
            reveal_strlit("setSchdPset");
            assert(name.len() != "setSchdPset"@.len());
        }
        Method::SetFavs => {
            reveal_strlit("setFavs");
            reveal_strlit("getPower");
            assert(name.len() != "getPower"@.len());
            reveal_strlit("getSystemConfig");
            assert(name.len() != "getSystemConfig"@.len());
            reveal_strlit("getModelConfig");
            assert(name.len() != "getModelConfig"@.len());
            reveal_strlit("getUserConfig");
            assert(name.len() != "getUserConfig"@.len());
            reveal_strlit("getWifiConfig");
            assert(name.len() != "getWifiConfig"@.len());
            reveal_strlit("getDevInfo");
            assert(name.len() != "getDevInfo"@.len());
            reveal_strlit("getPilot");
            assert(name.len() != "getPilot"@.len());
            reveal_strlit("setPilot");
            assert(name.len() != "setPilot"@.len());
            reveal_strlit("setState");
            assert(name.len() != "setState"@.len());
            reveal_strlit("setDevInfo");
            assert(name.len() != "setDevInfo"@.len());
            reveal_strlit("setSchd");
            assert(name[3] != "setSchd"@[3]);
            reveal_strlit("setSchdPset");
            assert(name.len() != "setSchdPset"@.len());
            reveal_strlit("setWifiConfig");
            assert(name.len() != "setWifiConfig"@.len());
        }
        Method::Reset => {
            reveal_strlit("reset");
            reveal_strlit("getPower");
            assert(name.len() != "getPower"@.len());
            reveal_strlit("getSystemConfig");
            assert(name.len() != "getSystemConfig"@.len());
            reveal_strlit("getModelConfig");
            assert(name.len() != "getModelConfig"@.len());
            reveal_strlit("getUserConfig");
            assert(name.len() != "getUserConfig"@.len());
            reveal_strlit("getWifiConfig");
            assert(name.len() != "getWifiConfig"@.len());
            reveal_strlit("getDevInfo");
            assert(name.len() != "getDevInfo"@.len());
            reveal_strlit("getPilot");
            assert(name.len() != "getPilot"@.len());
            reveal_strlit("setPilot");
            assert(name.len() != "setPilot"@.len());
            reveal_strlit("setState");
            assert(name.len() != "setState"@.len());
            reveal_strlit("setDevInfo");
            assert(name.len() != "setDevInfo"@.len());
            reveal_strlit("setSchd");
            assert(name.len() != "setSchd"@.len());
            reveal_strlit("setSchdPset");
            assert(name.len() != "setSchdPset"@.len());
            reveal_strlit("setWifiConfig");
            assert(name.len() != "setWifiConfig"@.len());
            reveal_strlit("setFavs");
            assert(name.len() != "setFavs"@.len());
        }
        Method::Reboot => {
            reveal_strlit("reboot");
            reveal_strlit("getPower");
            assert(name.len() != "getPower"@.len());
            reveal_strlit("getSystemConfig");
            assert(name.len() != "getSystemConfig"@.len());
            reveal_strlit("getModelConfig");
            assert(name.len() != "getModelConfig"@.len());
            reveal_strlit("getUserConfig");
            assert(name.len() != "getUserConfig"@.len());
            reveal_strlit("getWifiConfig");
            assert(name.len() != "getWifiConfig"@.len());
            reveal_strlit("getDevInfo");
            assert(name.len() != "getDevInfo"@.len());
            reveal_strlit("getPilot");
            assert(name.len() != "getPilot"@.len());
            reveal_strlit("setPilot");
            assert(name.len() != "setPilot"@.len());
            reveal_strlit("setState");
            assert(name.len() != "setState"@.len());
            reveal_strlit("setDevInfo");
            assert(name.len() != "setDevInfo"@.len());
            reveal_strlit("setSchd");
            assert(name.len() != "setSchd"@.len());
            reveal_strlit("setSchdPset");
            assert(name.len() != "setSchdPset"@.len());
            reveal_strlit("setWifiConfig");
            assert(name.len() != "setWifiConfig"@.len());
            reveal_strlit("setFavs");
            assert(name.len() != "setFavs"@.len());
            reveal_strlit("reset");
            assert(name.len() != "reset"@.len());
        }
        Method::SyncPilot => {
            reveal_strlit("syncPilot");
            reveal_strlit("getPower");
            assert(name.len() != "getPower"@.len());
            reveal_strlit("getSystemConfig");
            assert(name.len() != "getSystemConfig"@.len());
            reveal_strlit("getModelConfig");
            assert(name.len() != "getModelConfig"@.len());
            reveal_strlit("getUserConfig");
            assert(name.len() != "getUserConfig"@.len());
            reveal_strlit("getWifiConfig");
            assert(name.len() != "getWifiConfig"@.len());
            reveal_strlit("getDevInfo");
            assert(name.len() != "getDevInfo"@.len());
            reveal_strlit("getPilot");
            assert(name.len() != "getPilot"@.len());
            reveal_strlit("setPilot");
            assert(name.len() != "setPilot"@.len());
            reveal_strlit("setState");
            assert(name.len() != "setState"@.len());
            reveal_strlit("setDevInfo");
            assert(name.len() != "setDevInfo"@.len());
            reveal_strlit("setSchd");
            assert(name.len() != "setSchd"@.len());
            reveal_strlit("setSchdPset");
            assert(name.len() != "setSchdPset"@.len());
            reveal_strlit("setWifiConfig");
            assert(name.len() != "setWifiConfig"@.len());
            reveal_strlit("setFavs");
            assert(name.len() != "setFavs"@.len());
            reveal_strlit("reset");
            assert(name.len() != "reset"@.len());
            reveal_strlit("reboot");
            assert(name.len() != "reboot"@.len());
        }
        Method::SyncUserConfig => {
            reveal_strlit("syncUserConfig");
            reveal_strlit("getPower");
            assert(name.len() != "getPower"@.len());
            reveal_strlit("getSystemConfig");
            assert(name.len() != "getSystemConfig"@.len());
            reveal_strlit("getModelConfig");
            assert(name[0] != "getModelConfig"@[0]);
            reveal_strlit("getUserConfig");
            assert(name.len() != "getUserConfig"@.len());
            reveal_strlit("getWifiConfig");
            assert(name.len() != "getWifiConfig"@.len());
            reveal_strlit("getDevInfo");
            assert(name.len() != "getDevInfo"@.len());
            reveal_strlit("getPilot");
            assert(name.len() != "getPilot"@.len());
            reveal_strlit("setPilot");
            assert(name.len() != "setPilot"@.len());
            reveal_strlit("setState");
            assert(name.len() != "setState"@.len());
            reveal_strlit("setDevInfo");
            assert(name.len() != "setDevInfo"@.len());
            reveal_strlit("setSchd");
            assert(name.len() != "setSchd"@.len());
            reveal_strlit("setSchdPset");
            assert(name.len() != "setSchdPset"@.len());
            reveal_strlit("setWifiConfig");
            assert(name.len() != "setWifiConfig"@.len());
            reveal_strlit("setFavs");
            assert(name.len() != "setFavs"@.len());
            reveal_strlit("reset");
            assert(name.len() != "reset"@.len());
            reveal_strlit("reboot");
            assert(name.len() != "reboot"@.len());
            reveal_strlit("syncPilot");
            assert(name.len() != "syncPilot"@.len());
        }
        Method::SyncSchdPset => {
            reveal_strlit("syncSchdPset");
            reveal_strlit("getPower");
            assert(name.len() != "getPower"@.len());
            reveal_strlit("getSystemConfig");
            assert(name.len() != "getSystemConfig"@.len());
            reveal_strlit("getModelConfig");
            assert(name.len() != "getModelConfig"@.len());
            reveal_strlit("getUserConfig");
            assert(name.len() != "getUserConfig"@.len());
            reveal_strlit("getWifiConfig");
            assert(name.len() != "getWifiConfig"@.len());
            reveal_strlit("getDevInfo");
            assert(name.len() != "getDevInfo"@.len());
            reveal_strlit("getPilot");
            assert(name.len() != "getPilot"@.len());
            reveal_strlit("setPilot");
            assert(name.len() != "setPilot"@.len());
            reveal_strlit("setState");
            assert(name.len() != "setState"@.len());
            reveal_strlit("setDevInfo");
            assert(name.len() != "setDevInfo"@.len());
            reveal_strlit("setSchd");
            assert(name.len() != "setSchd"@.len());
            reveal_strlit("setSchdPset");
            assert(name.len() != "setSchdPset"@.len());
            reveal_strlit("setWifiConfig");
            assert(name.len() != "setWifiConfig"@.len());
            reveal_strlit("setFavs");
            assert(name.len() != "setFavs"@.len());
            reveal_strlit("reset");
            assert(name.len() != "reset"@.len());
            reveal_strlit("reboot");
            assert(name.len() != "reboot"@.len());
            reveal_strlit("syncPilot");
            assert(name.len() != "syncPilot"@.len());
            reveal_strlit("syncUserConfig");
            assert(name.len() != "syncUserConfig"@.len());
        }
        Method::SyncBroadcastPilot => {
            reveal_strlit("syncBroadcastPilot");
            reveal_strlit("getPower");
            assert(name.len() != "getPower"@.len());
            reveal_strlit("getSystemConfig");
            assert(name.len() != "getSystemConfig"@.len());
            reveal_strlit("getModelConfig");
            assert(name.len() != "getModelConfig"@.len());
            reveal_strlit("getUserConfig");
            assert(name.len() != "getUserConfig"@.len());
            reveal_strlit("getWifiConfig");
            assert(name.len() != "getWifiConfig"@.len());
            reveal_strlit("getDevInfo");
            assert(name.len() != "getDevInfo"@.len());
            reveal_strlit("getPilot");
            assert(name.len() != "getPilot"@.len());
            reveal_strlit("setPilot");
            assert(name.len() != "setPilot"@.len());
            reveal_strlit("setState");
            assert(name.len() != "setState"@.len());
            reveal_strlit("setDevInfo");
            assert(name.len() != "setDevInfo"@.len());
            reveal_strlit("setSchd");
            assert(name.len() != "setSchd"@.len());
            reveal_strlit("setSchdPset");
            assert(name.len() != "setSchdPset"@.len());
            reveal_strlit("setWifiConfig");
            assert(name.len() != "setWifiConfig"@.len());
            reveal_strlit("setFavs");
            assert(name.len() != "setFavs"@.len());
            reveal_strlit("reset");
            assert(name.len() != "reset"@.len());
            reveal_strlit("reboot");
            assert(name.len() != "reboot"@.len());
            reveal_strlit("syncPilot");
            assert(name.len() != "syncPilot"@.len());
            reveal_strlit("syncUserConfig");
            assert(name.len() != "syncUserConfig"@.len());
            reveal_strlit("syncSchdPset");
            assert(name.len() != "syncSchdPset"@.len());
        }
        Method::SyncSystemConfig => {
            reveal_strlit("syncSystemConfig");
            reveal_strlit("getPower");
            assert(name.len() != "getPower"@.len());
            reveal_strlit("getSystemConfig");
            assert(name.len() != "getSystemConfig"@.len());
            reveal_strlit("getModelConfig");
            assert(name.len() != "getModelConfig"@.len());
            reveal_strlit("getUserConfig");
            assert(name.len() != "getUserConfig"@.len());
            reveal_strlit("getWifiConfig");
            assert(name.len() != "getWifiConfig"@.len());
            reveal_strlit("getDevInfo");
            assert(name.len() != "getDevInfo"@.len());
            reveal_strlit("getPilot");
            assert(name.len() != "getPilot"@.len());
            reveal_strlit("setPilot");
            assert(name.len() != "setPilot"@.len());
            reveal_strlit("setState");
            assert(name.len() != "setState"@.len());
            reveal_strlit("setDevInfo");
            assert(name.len() != "setDevInfo"@.len());
            reveal_strlit("setSchd");
            assert(name.len() != "setSchd"@.len());
            reveal_strlit("setSchdPset");
            assert(name.len() != "setSchdPset"@.len());
            reveal_strlit("setWifiConfig");
            assert(name.len() != "setWifiConfig"@.len());
            reveal_strlit("setFavs");
            assert(name.len() != "setFavs"@.len());
            reveal_strlit("reset");
            assert(name.len() != "reset"@.len());
            reveal_strlit("reboot");
            assert(name.len() != "reboot"@.len());
            reveal_strlit("syncPilot");
            assert(name.len() != "syncPilot"@.len());
            reveal_strlit("syncUserConfig");
            assert(name.len() != "syncUserConfig"@.len());
            reveal_strlit("syncSchdPset");
            assert(name.len() != "syncSchdPset"@.len());
            reveal_strlit("syncBroadcastPilot");
            assert(name.len() != "syncBroadcastPilot"@.len());
        }
        Method::SyncConfig => {
            reveal_strlit("syncConfig");
            reveal_strlit("getPower");
            assert(name.len() != "getPower"@.len());
            reveal_strlit("getSystemConfig");
            assert(name.len() != "getSystemConfig"@.len());
            reveal_strlit("getModelConfig");
            assert(name.len() != "getModelConfig"@.len());
            reveal_strlit("getUserConfig");
            assert(name.len() != "getUserConfig"@.len());
            reveal_strlit("getWifiConfig");
            assert(name.len() != "getWifiConfig"@.len());
            reveal_strlit("getDevInfo");
            assert(name[0] != "getDevInfo"@[0]);
            reveal_strlit("getPilot");
            assert(name.len() != "getPilot"@.len());
            reveal_strlit("setPilot");
            assert(name.len() != "setPilot"@.len());
            reveal_strlit("setState");
            assert(name.len() != "setState"@.len());
            reveal_strlit("setDevInfo");
            assert(name[1] != "setDevInfo"@[1]);
            reveal_strlit("setSchd");
            assert(name.len() != "setSchd"@.len());
            reveal_strlit("setSchdPset");
            assert(name.len() != "setSchdPset"@.len());
            reveal_strlit("setWifiConfig");
            assert(name.len() != "setWifiConfig"@.len());
            reveal_strlit("setFavs");
            assert(name.len() != "setFavs"@.len());
            reveal_strlit("reset");
            assert(name.len() != "reset"@.len());
            reveal_strlit("reboot");
            assert(name.len() != "reboot"@.len());
            reveal_strlit("syncPilot");
            assert(name.len() != "syncPilot"@.len());
            reveal_strlit("syncUserConfig");
            assert(name.len() != "syncUserConfig"@.len());
            reveal_strlit("syncSchdPset");
            assert(name.len() != "syncSchdPset"@.len());
            reveal_strlit("syncBroadcastPilot");
            assert(name.len() != "syncBroadcastPilot"@.len());
            reveal_strlit("syncSystemConfig");
            assert(name.len() != "syncSystemConfig"@.len());
        }
        Method::SyncAlarm => {
            reveal_strlit("syncAlarm");
            reveal_strlit("getPower");
            assert(name.len() != "getPower"@.len());
            reveal_strlit("getSystemConfig");
            assert(name.len() != "getSystemConfig"@.len());
            reveal_strlit("getModelConfig");
            assert(name.len() != "getModelConfig"@.len());
            reveal_strlit("getUserConfig");
            assert(name.len() != "getUserConfig"@.len());
            reveal_strlit("getWifiConfig");
            assert(name.len() != "getWifiConfig"@.len());
            reveal_strlit("getDevInfo");
            assert(name.len() != "getDevInfo"@.len());
            reveal_strlit("getPilot");
            assert(name.len() != "getPilot"@.len());
            reveal_strlit("setPilot");
            assert(name.len() != "setPilot"@.len());
            reveal_strlit("setState");
            assert(name.len() != "setState"@.len());
            reveal_strlit("setDevInfo");
            assert(name.len() != "setDevInfo"@.len());
            reveal_strlit("setSchd");
            assert(name.len() != "setSchd"@.len());
            reveal_strlit("setSchdPset");
            assert(name.len() != "setSchdPset"@.len());
            reveal_strlit("setWifiConfig");
            assert(name.len() != "setWifiConfig"@.len());
            reveal_strlit("setFavs");
            assert(name.len() != "setFavs"@.len());
            reveal_strlit("reset");
            assert(name.len() != "reset"@.len());
            reveal_strlit("reboot");
            assert(name.len() != "reboot"@.len());
            reveal_strlit("syncPilot");
            assert(name[4] != "syncPilot"@[4]);
            reveal_strlit("syncUserConfig");
            assert(name.len() != "syncUserConfig"@.len());
            reveal_strlit("syncSchdPset");
            assert(name.len() != "syncSchdPset"@.len());
            reveal_strlit("syncBroadcastPilot");
            assert(name.len() != "syncBroadcastPilot"@.len());
            reveal_strlit("syncSystemConfig");
            assert(name.len() != "syncSystemConfig"@.len());
            reveal_strlit("syncConfig");
            assert(name.len() != "syncConfig"@.len());
        }
        Method::Pulse => {
            reveal_strlit("pulse");
            reveal_strlit("getPower");
            assert(name.len() != "getPower"@.len());
            reveal_strlit("getSystemConfig");
            assert(name.len() != "getSystemConfig"@.len());
            reveal_strlit("getModelConfig");
            assert(name.len() != "getModelConfig"@.len());
            reveal_strlit("getUserConfig");
            assert(name.len() != "getUserConfig"@.len());
            reveal_strlit("getWifiConfig");
            assert(name.len() != "getWifiConfig"@.len());
            reveal_strlit("getDevInfo");
            assert(name.len() != "getDevInfo"@.len());
            reveal_strlit("getPilot");
            assert(name.len() != "getPilot"@.len());
            reveal_strlit("setPilot");
            assert(name.len() != "setPilot"@.len());
            reveal_strlit("setState");
            assert(name.len() != "setState"@.len());
            reveal_strlit("setDevInfo");
            assert(name.len() != "setDevInfo"@.len());
            reveal_strlit("setSchd");
            assert(name.len() != "setSchd"@.len());
            reveal_strlit("setSchdPset");
            assert(name.len() != "setSchdPset"@.len());
            reveal_strlit("setWifiConfig");
            assert(name.len() != "setWifiConfig"@.len());
            reveal_strlit("setFavs");
            assert(name.len() != "setFavs"@.len());
            reveal_strlit("reset");
            assert(name[0] != "reset"@[0]);
            reveal_strlit("reboot");
            assert(name.len() != "reboot"@.len());
            reveal_strlit("syncPilot");
            assert(name.len() != "syncPilot"@.len());
            reveal_strlit("syncUserConfig");
            assert(name.len() != "syncUserConfig"@.len());
            reveal_strlit("syncSchdPset");
            assert(name.len() != "syncSchdPset"@.len());
            reveal_strlit("syncBroadcastPilot");
            assert(name.len() != "syncBroadcastPilot"@.len());
            reveal_strlit("syncSystemConfig");
            assert(name.len() != "syncSystemConfig"@.len());
            reveal_strlit("syncConfig");
            assert(name.len() != "syncConfig"@.len());
            reveal_strlit("syncAlarm");
            assert(name.len() != "syncAlarm"@.len());
        }
        Method::Registration => {
            reveal_strlit("registration");
            reveal_strlit("getPower");
            assert(name.len() != "getPower"@.len());
            reveal_strlit("getSystemConfig");
            assert(name.len() != "getSystemConfig"@.len());
            reveal_strlit("getModelConfig");
            assert(name.len() != "getModelConfig"@.len());
            reveal_strlit("getUserConfig");
            assert(name.len() != "getUserConfig"@.len());
            reveal_strlit("getWifiConfig");
            assert(name.len() != "getWifiConfig"@.len());
            reveal_strlit("getDevInfo");
            assert(name.len() != "getDevInfo"@.len());
            reveal_strlit("getPilot");
            assert(name.len() != "getPilot"@.len());
            reveal_strlit("setPilot");
            assert(name.len() != "setPilot"@.len());
            reveal_strlit("setState");
            assert(name.len() != "setState"@.len());
            reveal_strlit("setDevInfo");
            assert(name.len() != "setDevInfo"@.len());
            reveal_strlit("setSchd");
            assert(name.len() != "setSchd"@.len());
            reveal_strlit("setSchdPset");
            assert(name.len() != "setSchdPset"@.len());
            reveal_strlit("setWifiConfig");
            assert(name.len() != "setWifiConfig"@.len());
            reveal_strlit("setFavs");
            assert(name.len() != "setFavs"@.len());
            reveal_strlit("reset");
            assert(name.len() != "reset"@.len());
            reveal_strlit("reboot");
            assert(name.len() != "reboot"@.len());
            reveal_strlit("syncPilot");
            assert(name.len() != "syncPilot"@.len());
            reveal_strlit("syncUserConfig");
            assert(name.len() != "syncUserConfig"@.len());
            reveal_strlit("syncSchdPset");
            assert(name[0] != "syncSchdPset"@[0]);
            reveal_strlit("syncBroadcastPilot");
            assert(name.len() != "syncBroadcastPilot"@.len());
            reveal_strlit("syncSystemConfig");
            assert(name.len() != "syncSystemConfig"@.len());
            reveal_strlit("syncConfig");
            assert(name.len() != "syncConfig"@.len());
            reveal_strlit("syncAlarm");
            assert(name.len() != "syncAlarm"@.len());
            reveal_strlit("pulse");
            assert(name.len() != "pulse"@.len());
        }
        Method::Ping => {
            reveal_strlit("PING");
            reveal_strlit("getPower");
            assert(name.len() != "getPower"@.len());
            reveal_strlit("getSystemConfig");
            assert(name.len() != "getSystemConfig"@.len());
            reveal_strlit("getModelConfig");
            assert(name.len() != "getModelConfig"@.len());
            reveal_strlit("getUserConfig");
            assert(name.len() != "getUserConfig"@.len());
            reveal_strlit("getWifiConfig");
            assert(name.len() != "getWifiConfig"@.len());
            reveal_strlit("getDevInfo");
            assert(name.len() != "getDevInfo"@.len());
            reveal_strlit("getPilot");
            assert(name.len() != "getPilot"@.len());
            reveal_strlit("setPilot");
            assert(name.len() != "setPilot"@.len());
            reveal_strlit("setState");
            assert(name.len() != "setState"@.len());
            reveal_strlit("setDevInfo");
            assert(name.len() != "setDevInfo"@.len());
            reveal_strlit("setSchd");
            assert(name.len() != "setSchd"@.len());
            reveal_strlit("setSchdPset");
            assert(name.len() != "setSchdPset"@.len());
            reveal_strlit("setWifiConfig");
            assert(name.len() != "setWifiConfig"@.len());
            reveal_strlit("setFavs");
            assert(name.len() != "setFavs"@.len());
            reveal_strlit("reset");
            assert(name.len() != "reset"@.len());
            reveal_strlit("reboot");
            assert(name.len() != "reboot"@.len());
            reveal_strlit("syncPilot");
            assert(name.len() != "syncPilot"@.len());
            reveal_strlit("syncUserConfig");
            assert(name.len() != "syncUserConfig"@.len());
            reveal_strlit("syncSchdPset");
            assert(name.len() != "syncSchdPset"@.len());
            reveal_strlit("syncBroadcastPilot");
            assert(name.len() != "syncBroadcastPilot"@.len());
            reveal_strlit("syncSystemConfig");
            assert(name.len() != "syncSystemConfig"@.len());
            reveal_strlit("syncConfig");
            assert(name.len() != "syncConfig"@.len());
            reveal_strlit("syncAlarm");
            assert(name.len() != "syncAlarm"@.len());
            reveal_strlit("pulse");
            assert(name.len() != "pulse"@.len());
            reveal_strlit("registration");
            assert(name.len() != "registration"@.len());
        }
        Method::RegisteredDevice => {
            reveal_strlit("REGISTERED_DEVICE");
            reveal_strlit("getPower");
            assert(name.len() != "getPower"@.len());
            reveal_strlit("getSystemConfig");
            assert(name.len() != "getSystemConfig"@.len());
            reveal_strlit("getModelConfig");
            assert(name.len() != "getModelConfig"@.len());
            reveal_strlit("getUserConfig");
            assert(name.len() != "getUserConfig"@.len());
            reveal_strlit("getWifiConfig");
            assert(name.len() != "getWifiConfig"@.len());
            reveal_strlit("getDevInfo");
            assert(name.len() != "getDevInfo"@.len());
            reveal_strlit("getPilot");
            assert(name.len() != "getPilot"@.len());
            reveal_strlit("setPilot");
            assert(name.len() != "setPilot"@.len());
            reveal_strlit("setState");
            assert(name.len() != "setState"@.len());
            reveal_strlit("setDevInfo");
            assert(name.len() != "setDevInfo"@.len());
            reveal_strlit("setSchd");
            assert(name.len() != "setSchd"@.len());
            reveal_strlit("setSchdPset");
            assert(name.len() != "setSchdPset"@.len());
            reveal_strlit("setWifiConfig");
            assert(name.len() != "setWifiConfig"@.len());
            reveal_strlit("setFavs");
            assert(name.len() != "setFavs"@.len());
            reveal_strlit("reset");
            assert(name.len() != "reset"@.len());
            reveal_strlit("reboot");
            assert(name.len() != "reboot"@.len());
            reveal_strlit("syncPilot");
            assert(name.len() != "syncPilot"@.len());
            reveal_strlit("syncUserConfig");
            assert(name.len() != "syncUserConfig"@.len());
            reveal_strlit("syncSchdPset");
            assert(name.len() != "syncSchdPset"@.len());
            reveal_strlit("syncBroadcastPilot");
            assert(name.len() != "syncBroadcastPilot"@.len());
            reveal_strlit("syncSystemConfig");
            assert(name.len() != "syncSystemConfig"@.len());
            reveal_strlit("syncConfig");
            assert(name.len() != "syncConfig"@.len());
            reveal_strlit("syncAlarm");
            assert(name.len() != "syncAlarm"@.len());
            reveal_strlit("pulse");
            assert(name.len() != "pulse"@.len());
            reveal_strlit("registration");
            assert(name.len() != "registration"@.len());
            reveal_strlit("PING");
            assert(name.len() != "PING"@.len());
        }
    }
}

/// The wire name of every method is the protocol's literal name for it,
/// reading that name back gives the method, and a name no method carries
/// reads back as nothing.
pub proof fn lemma_method_wire_names(name: Seq<char>)
    ensures
        method_name(Method::GetPower) == "getPower"@,
        method_name(Method::GetSystemConfig) == "getSystemConfig"@,
        method_name(Method::GetModelConfig) == "getModelConfig"@,
        method_name(Method::GetUserConfig) == "getUserConfig"@,
        method_name(Method::GetWifiConfig) == "getWifiConfig"@,
        method_name(Method::GetDevInfo) == "getDevInfo"@,
        method_name(Method::GetPilot) == "getPilot"@,
        method_name(Method::SetPilot) == "setPilot"@,
        method_name(Method::SetState) == "setState"@,
        method_name(Method::SetDevInfo) == "setDevInfo"@,
        method_name(Method::SetSchd) == "setSchd"@,
        method_name(Method::SetSchdPset) == "setSchdPset"@,
        method_name(Method::SetWifiConfig) == "setWifiConfig"@,
        method_name(Method::SetFavs) == "setFavs"@,
        method_name(Method::Reset) == "reset"@,
        method_name(Method::Reboot) == "reboot"@,
        method_name(Method::SyncPilot) == "syncPilot"@,
        method_name(Method::SyncUserConfig) == "syncUserConfig"@,
        method_name(Method::SyncSchdPset) == "syncSchdPset"@,
        method_name(Method::SyncBroadcastPilot) == "syncBroadcastPilot"@,
        method_name(Method::SyncSystemConfig) == "syncSystemConfig"@,
        method_name(Method::SyncConfig) == "syncConfig"@,
        method_name(Method::SyncAlarm) == "syncAlarm"@,
        method_name(Method::Pulse) == "pulse"@,
        method_name(Method::Registration) == "registration"@,
        method_name(Method::Ping) == "PING"@,
        method_name(Method::RegisteredDevice) == "REGISTERED_DEVICE"@,
        method_named("getPower"@) == Some(Method::GetPower),
        method_named("getSystemConfig"@) == Some(Method::GetSystemConfig),
        method_named("getModelConfig"@) == Some(Method::GetModelConfig),
        method_named("getUserConfig"@) == Some(Method::GetUserConfig),
        method_named("getWifiConfig"@) == Some(Method::GetWifiConfig),
        method_named("getDevInfo"@) == Some(Method::GetDevInfo),
        method_named("getPilot"@) == Some(Method::GetPilot),
        method_named("setPilot"@) == Some(Method::SetPilot),
        method_named("setState"@) == Some(Method::SetState),
        method_named("setDevInfo"@) == Some(Method::SetDevInfo),
        method_named("setSchd"@) == Some(Method::SetSchd),
        method_named("setSchdPset"@) == Some(Method::SetSchdPset),
        method_named("setWifiConfig"@) == Some(Method::SetWifiConfig),
        method_named("setFavs"@) == Some(Method::SetFavs),
        method_named("reset"@) == Some(Method::Reset),
        method_named("reboot"@) == Some(Method::Reboot),
        method_named("syncPilot"@) == Some(Method::SyncPilot),
        method_named("syncUserConfig"@) == Some(Method::SyncUserConfig),
        method_named("syncSchdPset"@) == Some(Method::SyncSchdPset),
        method_named("syncBroadcastPilot"@) == Some(Method::SyncBroadcastPilot),
        method_named("syncSystemConfig"@) == Some(Method::SyncSystemConfig),
        method_named("syncConfig"@) == Some(Method::SyncConfig),
        method_named("syncAlarm"@) == Some(Method::SyncAlarm),
        method_named("pulse"@) == Some(Method::Pulse),
        method_named("registration"@) == Some(Method::Registration),
        method_named("PING"@) == Some(Method::Ping),
        method_named("REGISTERED_DEVICE"@) == Some(Method::RegisteredDevice),
        (forall|m: Method| method_name(m) != name) ==> method_named(name) is None,
        method_named(name) matches Some(m) ==> method_name(m) == name,
{
    lemma_method_name_roundtrip(Method::GetPower);
    lemma_method_name_roundtrip(Method::GetSystemConfig);
    lemma_method_name_roundtrip(Method::GetModelConfig);
    lemma_method_name_roundtrip(Method::GetUserConfig);
    lemma_method_name_roundtrip(Method::GetWifiConfig);
    lemma_method_name_roundtrip(Method::GetDevInfo);
    lemma_method_name_roundtrip(Method::GetPilot);
    lemma_method_name_roundtrip(Method::SetPilot);
    lemma_method_name_roundtrip(Method::SetState);
    lemma_method_name_roundtrip(Method::SetDevInfo);
    lemma_method_name_roundtrip(Method::SetSchd);
    lemma_method_name_roundtrip(Method::SetSchdPset);
    lemma_method_name_roundtrip(Method::SetWifiConfig);
    lemma_method_name_roundtrip(Method::SetFavs);
    lemma_method_name_roundtrip(Method::Reset);
    lemma_method_name_roundtrip(Method::Reboot);
    lemma_method_name_roundtrip(Method::SyncPilot);
    lemma_method_name_roundtrip(Method::SyncUserConfig);
    lemma_method_name_roundtrip(Method::SyncSchdPset);
    lemma_method_name_roundtrip(Method::SyncBroadcastPilot);
    lemma_method_name_roundtrip(Method::SyncSystemConfig);
    lemma_method_name_roundtrip(Method::SyncConfig);
    lemma_method_name_roundtrip(Method::SyncAlarm);
    lemma_method_name_roundtrip(Method::Pulse);
    lemma_method_name_roundtrip(Method::Registration);
    lemma_method_name_roundtrip(Method::Ping);
    lemma_method_name_roundtrip(Method::RegisteredDevice);
}

/// Equality of two string slices, decided on their UTF-8 bytes.
fn str_eq(a: &str, b: &str) -> (r: bool)
    ensures
        r == (a@ == b@),
{
    let x = a.as_bytes();
    let y = b.as_bytes();
    proof {
        vstd::utf8::encode_utf8_decode_utf8(a@);
        vstd::utf8::encode_utf8_decode_utf8(b@);
    }
    if x.len() != y.len() {
        return false;
    }
    let mut i: usize = 0;
    while i < x.len()
        invariant
            x@ == a.spec_bytes(),
            y@ == b.spec_bytes(),
            x@.len() == y@.len(),
            0 <= i <= x@.len(),
            forall|j: int| 0 <= j < i ==> x@[j] == y@[j],
        decreases x@.len() - i,
    {
        if x[i] != y[i] {
            return false;
        }
        i = i + 1;
    }
    assert(x@ =~= y@);
    true
}

impl Method {
    /// The wire name of this method.
    pub fn as_str(&self) -> (r: &'static str)
        ensures
            r@ == method_name(*self),
    {
        match self {
            Method::GetPower => "getPower",
            Method::GetSystemConfig => "getSystemConfig",
            Method::GetModelConfig => "getModelConfig",
            Method::GetUserConfig => "getUserConfig",
            Method::GetWifiConfig => "getWifiConfig",
            Method::GetDevInfo => "getDevInfo",
            Method::GetPilot => "getPilot",
            Method::SetPilot => "setPilot",
            Method::SetState => "setState",
            Method::SetDevInfo => "setDevInfo",
            Method::SetSchd => "setSchd",
            Method::SetSchdPset => "setSchdPset",
            Method::SetWifiConfig => "setWifiConfig",
            Method::SetFavs => "setFavs",
            Method::Reset => "reset",
            Method::Reboot => "reboot",
            Method::SyncPilot => "syncPilot",
            Method::SyncUserConfig => "syncUserConfig",
            Method::SyncSchdPset => "syncSchdPset",
            Method::SyncBroadcastPilot => "syncBroadcastPilot",
            Method::SyncSystemConfig => "syncSystemConfig",
            Method::SyncConfig => "syncConfig",
            Method::SyncAlarm => "syncAlarm",
            Method::Pulse => "pulse",
            Method::Registration => "registration",
            Method::Ping => "PING",
            Method::RegisteredDevice => "REGISTERED_DEVICE",
        }
    }

    /// The wire name of this method as an owned string.
    pub fn to_string(&self) -> (r: String)
        ensures
            r@ == method_name(*self),
    {
        self.as_str().to_owned()
    }

    /// The method whose wire name is `name`; names are matched exactly, with case.
    pub fn from_name(name: &str) -> (r: Option<Method>)
        ensures
            r == method_named(name@),
    {
        if str_eq(name, "getPower") {
            return Some(Method::GetPower);
        }
        if str_eq(name, "getSystemConfig") {
            return Some(Method::GetSystemConfig);
        }
        if str_eq(name, "getModelConfig") {
            return Some(Method::GetModelConfig);
        }
        if str_eq(name, "getUserConfig") {
            return Some(Method::GetUserConfig);
        }
        if str_eq(name, "getWifiConfig") {
            return Some(Method::GetWifiConfig);
        }
        if str_eq(name, "getDevInfo") {
            return Some(Method::GetDevInfo);
        }
        if str_eq(name, "getPilot") {
            return Some(Method::GetPilot);
        }
        if str_eq(name, "setPilot") {
            return Some(Method::SetPilot);
        }
        if str_eq(name, "setState") {
            return Some(Method::SetState);
        }
        if str_eq(name, "setDevInfo") {
            return Some(Method::SetDevInfo);
        }
        if str_eq(name, "setSchd") {
            return Some(Method::SetSchd);
        }
        if str_eq(name, "setSchdPset") {
            return Some(Method::SetSchdPset);
        }
        if str_eq(name, "setWifiConfig") {
            return Some(Method::SetWifiConfig);
        }
        if str_eq(name, "setFavs") {
            return Some(Method::SetFavs);
        }
        if str_eq(name, "reset") {
            return Some(Method::Reset);
        }
        if str_eq(name, "reboot") {
            return Some(Method::Reboot);
        }
        if str_eq(name, "syncPilot") {
            return Some(Method::SyncPilot);
        }
        if str_eq(name, "syncUserConfig") {
            return Some(Method::SyncUserConfig);
        }
        if str_eq(name, "syncSchdPset") {
            return Some(Method::SyncSchdPset);
        }
        if str_eq(name, "syncBroadcastPilot") {
            return Some(Method::SyncBroadcastPilot);
        }
        if str_eq(name, "syncSystemConfig") {
            return Some(Method::SyncSystemConfig);
        }
        if str_eq(name, "syncConfig") {
            return Some(Method::SyncConfig);
        }
        if str_eq(name, "syncAlarm") {
            return Some(Method::SyncAlarm);
        }
        if str_eq(name, "pulse") {
            return Some(Method::Pulse);
        }
        if str_eq(name, "registration") {
            return Some(Method::Registration);
        }
        if str_eq(name, "PING") {
            return Some(Method::Ping);
        }
        if str_eq(name, "REGISTERED_DEVICE") {
            return Some(Method::RegisteredDevice);
        }
        None
    }
}

} // verus!
