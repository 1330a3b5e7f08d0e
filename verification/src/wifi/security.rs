//! Personal-mode link security selected for one station connection.

use vstd::prelude::*;

verus! {

/// SAE password-element derivation accepted for one WPA3 deployment.
#[derive(Clone, Copy, Debug, PartialEq, Eq, Structural)]
pub enum SaePwe {
    /// Hunting-and-pecking only.
    HuntAndPeck,
    /// Hash-to-element only.
    HashToElement,
    /// Either derivation, as negotiated with the access point.
    Both,
}

/// Protection demanded for management frames.
#[derive(Clone, Copy, Debug, PartialEq, Eq, Structural)]
pub enum ManagementFrameProtection {
    /// Management frames are not protected.
    Disabled,
    /// The association is refused unless management frames are protected.
    Required,
}

/// Typed Personal-mode security consumed by the chip backend.
#[derive(Clone, Copy, Debug, PartialEq, Eq, Structural)]
pub enum PersonalSecurity {
    /// WPA2-Personal with a pre-shared key.
    Wpa2,
    /// WPA3-Personal with SAE.
    Wpa3 {
        /// Password-element policy chosen by the caller.
        sae_pwe: SaePwe,
    },
}

impl PersonalSecurity {
    /// Management-frame protection that the selected mode implies.
    ///
    /// WPA3 makes protection mandatory; no caller choice can relax it.
    pub fn management_frame_protection(self) -> (protection: ManagementFrameProtection)
        ensures
            protection == ManagementFrameProtection::Required <==> self is Wpa3,
            protection == ManagementFrameProtection::Disabled <==> self is Wpa2,
    {
        match self {
            PersonalSecurity::Wpa2 => ManagementFrameProtection::Disabled,
            PersonalSecurity::Wpa3 { .. } => ManagementFrameProtection::Required,
        }
    }
}

} // verus!
