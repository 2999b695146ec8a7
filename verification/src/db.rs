//! The static stratagem catalog: directional codes, keycode sequences,
//! display names and icon paths.

use vstd::prelude::*;
use vstd::string::StringExecFns;

verus! {

/// One directional input. Each direction has a fixed display glyph (an arrow).
#[derive(Debug, PartialEq, Eq, Structural, Copy, Clone)]
pub enum Code {
    Down,
    Left,
    Right,
    Up,
}

impl Code {
    /// The glyph shown for this direction, as a one-character sequence.
    pub open spec fn arrow_spec(self) -> Seq<char> {
        match self {
            Code::Down => "\u{2193}"@,
            Code::Left => "\u{2190}"@,
            Code::Right => "\u{2192}"@,
            Code::Up => "\u{2191}"@,
        }
    }

    /// The glyph shown for this direction.
    pub fn get_arrow(&self) -> (r: &str)
        ensures
            r@ == self.arrow_spec(),
    {
        match self {
            Code::Down => "\u{2193}",
            Code::Left => "\u{2190}",
            Code::Right => "\u{2192}",
            Code::Up => "\u{2191}",
        }
    }
}

/// How many stratagems the catalog holds.
pub const STRATAGEM_COUNT: usize = 60;

/// A named stratagem. The catalog is a fixed, closed enumeration; each entry
/// carries a keycode (a non-empty direction sequence), a display name and an
/// icon path.
#[derive(Debug, PartialEq, Eq, Structural, Copy, Clone)]
pub enum Stratagem {
    Resupply,
    SOSBeacon,
    Reinforce,
    Hellbomb,
    SSSDDelivery,
    UploadData,
    EagleRearm,
    SeismicProbe,
    OrbitalIlluminationFlare,
    SEAFArtillery,
    LAS5GuardDogRover,
    AR23GuardDog,
    LIFT850JumpPack,
    B1SupplyPack,
    SH32ShieldGeneratorPack,
    SH20BallisticShieldBackpack,
    AC8Autocannon,
    EAT17ExpendableAntiTank,
    FLAM40Flamethrower,
    LAS98LaserCannon,
    M105Stalwart,
    MG43MachineGun,
    ARC3ArcThrower,
    GL21GrenadeLauncher,
    APW1AntiMaterielRifle,
    RS422Railgun,
    GR8RecoillessRifle,
    FAF14SPEARLauncher,
    LAS99QuasarCannon,
    MG206HeavyMachineGun,
    EXO45PatriotExosuit,
    ARC3TeslaTower,
    M12MortarSentry,
    M23EMSMortarSentry,
    MG43MachineGunSentry,
    G16GatlingSentry,
    MD6AntiPersonnelMinefield,
    MD14IncendiaryMines,
    FX12ShieldGeneratorRelay,
    MG101HMGEmplacement,
    AC8AutocannonSentry,
    MLS4XRocketSentry,
    OrbitalPrecisionStrike,
    OrbitalAirburstStrike,
    Orbital120MMHEBarrage,
    Orbital380MMHEBarrage,
    OrbitalWalkingBarrage,
    OrbitalLaser,
    OrbitalRailcannonStrike,
    OrbitalGatlingBarrage,
    OrbitalGasStrike,
    OrbitalEMSStrike,
    OrbitalSmokeStrike,
    EagleStrafingRun,
    EagleAirstrike,
    EagleClusterBomb,
    EagleNapalmStrike,
    EagleSmokeStrike,
    Eagle110MMRocketPods,
    Eagle500kgBomb,
}

impl Stratagem {
    /// The keycode of this stratagem: the ordered direction sequence a user
    /// must reproduce. Non-empty for every catalog entry.
    pub open spec fn keycode_spec(self) -> Seq<Code> {
        match self {
            Stratagem::Resupply => seq![Code::Down, Code::Down, Code::Up, Code::Right],
            Stratagem::SOSBeacon => seq![Code::Up, Code::Down, Code::Right, Code::Up],
            Stratagem::Reinforce => seq![Code::Up, Code::Down, Code::Right, Code::Left, Code::Up],
            Stratagem::Hellbomb => seq![Code::Down, Code::Up, Code::Left, Code::Down, Code::Up, Code::Right, Code::Down, Code::Up],
            Stratagem::SSSDDelivery => seq![Code::Down, Code::Down, Code::Down, Code::Up, Code::Up],
            Stratagem::UploadData => seq![Code::Down, Code::Down, Code::Up, Code::Up, Code::Up],
            Stratagem::EagleRearm => seq![Code::Up, Code::Up, Code::Left, Code::Up, Code::Right],
            Stratagem::SeismicProbe => seq![Code::Up, Code::Up, Code::Left, Code::Right, Code::Down, Code::Down],
            Stratagem::OrbitalIlluminationFlare => seq![Code::Right, Code::Right, Code::Left, Code::Left],
            Stratagem::SEAFArtillery => seq![Code::Right, Code::Up, Code::Up, Code::Down],
            Stratagem::LAS5GuardDogRover => seq![Code::Down, Code::Up, Code::Left, Code::Up, Code::Right, Code::Right],
            Stratagem::AR23GuardDog => seq![Code::Down, Code::Up, Code::Left, Code::Up, Code::Right, Code::Down],
            Stratagem::LIFT850JumpPack => seq![Code::Down, Code::Up, Code::Up, Code::Down, Code::Up],
            Stratagem::B1SupplyPack => seq![Code::Down, Code::Left, Code::Down, Code::Up, Code::Up, Code::Down],
            Stratagem::SH32ShieldGeneratorPack => seq![Code::Down, Code::Up, Code::Left, Code::Right, Code::Left, Code::Right],
            Stratagem::SH20BallisticShieldBackpack => seq![Code::Down, Code::Left, Code::Down, Code::Down, Code::Up, Code::Left],
            Stratagem::AC8Autocannon => seq![Code::Down, Code::Left, Code::Down, Code::Up, Code::Up, Code::Right],
            Stratagem::EAT17ExpendableAntiTank => seq![Code::Down, Code::Down, Code::Left, Code::Up, Code::Right],
            Stratagem::FLAM40Flamethrower => seq![Code::Down, Code::Left, Code::Up, Code::Down, Code::Up],
            Stratagem::LAS98LaserCannon => seq![Code::Down, Code::Left, Code::Down, Code::Up, Code::Left],
            Stratagem::M105Stalwart => seq![Code::Down, Code::Left, Code::Down, Code::Up, Code::Up, Code::Right],
            Stratagem::MG43MachineGun => seq![Code::Down, Code::Left, Code::Down, Code::Up, Code::Right],
            Stratagem::ARC3ArcThrower => seq![Code::Down, Code::Right, Code::Down, Code::Up, Code::Left, Code::Left],
            Stratagem::GL21GrenadeLauncher => seq![Code::Down, Code::Left, Code::Up, Code::Left, Code::Down],
            Stratagem::APW1AntiMaterielRifle => seq![Code::Down, Code::Left, Code::Right, Code::Up, Code::Down],
            Stratagem::RS422Railgun => seq![Code::Down, Code::Right, Code::Down, Code::Up, Code::Left, Code::Right],
            Stratagem::GR8RecoillessRifle => seq![Code::Down, Code::Left, Code::Right, Code::Right, Code::Left],
            Stratagem::FAF14SPEARLauncher => seq![Code::Down, Code::Down, Code::Up, Code::Down, Code::Down],
            Stratagem::LAS99QuasarCannon => seq![Code::Down, Code::Down, Code::Up, Code::Left, Code::Right],
            Stratagem::MG206HeavyMachineGun => seq![Code::Down, Code::Left, Code::Up, Code::Down, Code::Down],
            Stratagem::EXO45PatriotExosuit => seq![Code::Left, Code::Down, Code::Right, Code::Up, Code::Left, Code::Down, Code::Down],
            Stratagem::ARC3TeslaTower => seq![Code::Down, Code::Up, Code::Right, Code::Up, Code::Left, Code::Right],
            Stratagem::M12MortarSentry => seq![Code::Down, Code::Up, Code::Right, Code::Right, Code::Down],
            Stratagem::M23EMSMortarSentry => seq![Code::Down, Code::Up, Code::Right, Code::Down, Code::Right],
            Stratagem::MG43MachineGunSentry => seq![Code::Down, Code::Up, Code::Right, Code::Right, Code::Up],
            Stratagem::G16GatlingSentry => seq![Code::Down, Code::Up, Code::Right, Code::Left],
            Stratagem::MD6AntiPersonnelMinefield => seq![Code::Down, Code::Left, Code::Up, Code::Right],
            Stratagem::MD14IncendiaryMines => seq![Code::Down, Code::Left, Code::Left, Code::Down],
            Stratagem::FX12ShieldGeneratorRelay => seq![Code::Down, Code::Down, Code::Left, Code::Right, Code::Left, Code::Right],
            Stratagem::MG101HMGEmplacement => seq![Code::Down, Code::Up, Code::Left, Code::Right, Code::Right, Code::Left],
            Stratagem::AC8AutocannonSentry => seq![Code::Down, Code::Up, Code::Right, Code::Up, Code::Left, Code::Up],
            Stratagem::MLS4XRocketSentry => seq![Code::Down, Code::Up, Code::Right, Code::Right, Code::Left],
            Stratagem::OrbitalPrecisionStrike => seq![Code::Right, Code::Right, Code::Up],
            Stratagem::OrbitalAirburstStrike => seq![Code::Right, Code::Right, Code::Right],
            Stratagem::Orbital120MMHEBarrage => seq![Code::Right, Code::Right, Code::Down, Code::Left, Code::Right, Code::Down],
            Stratagem::Orbital380MMHEBarrage => seq![Code::Right, Code::Down, Code::Up, Code::Up, Code::Left, Code::Down, Code::Down],
            Stratagem::OrbitalWalkingBarrage => seq![Code::Right, Code::Down, Code::Right, Code::Down, Code::Right, Code::Down],
            Stratagem::OrbitalLaser => seq![Code::Right, Code::Down, Code::Up, Code::Right, Code::Down],
            Stratagem::OrbitalRailcannonStrike => seq![Code::Right, Code::Up, Code::Down, Code::Down, Code::Right],
            Stratagem::OrbitalGatlingBarrage => seq![Code::Right, Code::Down, Code::Left, Code::Up, Code::Up],
            Stratagem::OrbitalGasStrike => seq![Code::Right, Code::Right, Code::Down, Code::Right],
            Stratagem::OrbitalEMSStrike => seq![Code::Right, Code::Right, Code::Left, Code::Down],
            Stratagem::OrbitalSmokeStrike => seq![Code::Right, Code::Right, Code::Down, Code::Up],
            Stratagem::EagleStrafingRun => seq![Code::Up, Code::Right, Code::Right],
            Stratagem::EagleAirstrike => seq![Code::Up, Code::Right, Code::Down, Code::Right],
            Stratagem::EagleClusterBomb => seq![Code::Up, Code::Right, Code::Down, Code::Down, Code::Right],
            Stratagem::EagleNapalmStrike => seq![Code::Up, Code::Right, Code::Down, Code::Up],
            Stratagem::EagleSmokeStrike => seq![Code::Up, Code::Right, Code::Up, Code::Down],
            Stratagem::Eagle110MMRocketPods => seq![Code::Up, Code::Right, Code::Up, Code::Left],
            Stratagem::Eagle500kgBomb => seq![Code::Up, Code::Right, Code::Down, Code::Down, Code::Down],
        }
    }

    /// The keycode of this stratagem.
    pub fn get_keycode(&self) -> (r: Vec<Code>)
        ensures
            r@ == self.keycode_spec(),
    {
        let r: Vec<Code> = match self {
            Stratagem::Resupply => vec![Code::Down, Code::Down, Code::Up, Code::Right],
            Stratagem::SOSBeacon => vec![Code::Up, Code::Down, Code::Right, Code::Up],
            Stratagem::Reinforce => vec![Code::Up, Code::Down, Code::Right, Code::Left, Code::Up],
            Stratagem::Hellbomb => vec![Code::Down, Code::Up, Code::Left, Code::Down, Code::Up, Code::Right, Code::Down, Code::Up],
            Stratagem::SSSDDelivery => vec![Code::Down, Code::Down, Code::Down, Code::Up, Code::Up],
            Stratagem::UploadData => vec![Code::Down, Code::Down, Code::Up, Code::Up, Code::Up],
            Stratagem::EagleRearm => vec![Code::Up, Code::Up, Code::Left, Code::Up, Code::Right],
            Stratagem::SeismicProbe => vec![Code::Up, Code::Up, Code::Left, Code::Right, Code::Down, Code::Down],
            Stratagem::OrbitalIlluminationFlare => vec![Code::Right, Code::Right, Code::Left, Code::Left],
            Stratagem::SEAFArtillery => vec![Code::Right, Code::Up, Code::Up, Code::Down],
            Stratagem::LAS5GuardDogRover => vec![Code::Down, Code::Up, Code::Left, Code::Up, Code::Right, Code::Right],
            Stratagem::AR23GuardDog => vec![Code::Down, Code::Up, Code::Left, Code::Up, Code::Right, Code::Down],
            Stratagem::LIFT850JumpPack => vec![Code::Down, Code::Up, Code::Up, Code::Down, Code::Up],
            Stratagem::B1SupplyPack => vec![Code::Down, Code::Left, Code::Down, Code::Up, Code::Up, Code::Down],
            Stratagem::SH32ShieldGeneratorPack => vec![Code::Down, Code::Up, Code::Left, Code::Right, Code::Left, Code::Right],
            Stratagem::SH20BallisticShieldBackpack => vec![Code::Down, Code::Left, Code::Down, Code::Down, Code::Up, Code::Left],
            Stratagem::AC8Autocannon => vec![Code::Down, Code::Left, Code::Down, Code::Up, Code::Up, Code::Right],
            Stratagem::EAT17ExpendableAntiTank => vec![Code::Down, Code::Down, Code::Left, Code::Up, Code::Right],
            Stratagem::FLAM40Flamethrower => vec![Code::Down, Code::Left, Code::Up, Code::Down, Code::Up],
            Stratagem::LAS98LaserCannon => vec![Code::Down, Code::Left, Code::Down, Code::Up, Code::Left],
            Stratagem::M105Stalwart => vec![Code::Down, Code::Left, Code::Down, Code::Up, Code::Up, Code::Right],
            Stratagem::MG43MachineGun => vec![Code::Down, Code::Left, Code::Down, Code::Up, Code::Right],
            Stratagem::ARC3ArcThrower => vec![Code::Down, Code::Right, Code::Down, Code::Up, Code::Left, Code::Left],
            Stratagem::GL21GrenadeLauncher => vec![Code::Down, Code::Left, Code::Up, Code::Left, Code::Down],
            Stratagem::APW1AntiMaterielRifle => vec![Code::Down, Code::Left, Code::Right, Code::Up, Code::Down],
            Stratagem::RS422Railgun => vec![Code::Down, Code::Right, Code::Down, Code::Up, Code::Left, Code::Right],
            Stratagem::GR8RecoillessRifle => vec![Code::Down, Code::Left, Code::Right, Code::Right, Code::Left],
            Stratagem::FAF14SPEARLauncher => vec![Code::Down, Code::Down, Code::Up, Code::Down, Code::Down],
            Stratagem::LAS99QuasarCannon => vec![Code::Down, Code::Down, Code::Up, Code::Left, Code::Right],
            Stratagem::MG206HeavyMachineGun => vec![Code::Down, Code::Left, Code::Up, Code::Down, Code::Down],
            Stratagem::EXO45PatriotExosuit => vec![Code::Left, Code::Down, Code::Right, Code::Up, Code::Left, Code::Down, Code::Down],
            Stratagem::ARC3TeslaTower => vec![Code::Down, Code::Up, Code::Right, Code::Up, Code::Left, Code::Right],
            Stratagem::M12MortarSentry => vec![Code::Down, Code::Up, Code::Right, Code::Right, Code::Down],
            Stratagem::M23EMSMortarSentry => vec![Code::Down, Code::Up, Code::Right, Code::Down, Code::Right],
            Stratagem::MG43MachineGunSentry => vec![Code::Down, Code::Up, Code::Right, Code::Right, Code::Up],
            Stratagem::G16GatlingSentry => vec![Code::Down, Code::Up, Code::Right, Code::Left],
            Stratagem::MD6AntiPersonnelMinefield => vec![Code::Down, Code::Left, Code::Up, Code::Right],
            Stratagem::MD14IncendiaryMines => vec![Code::Down, Code::Left, Code::Left, Code::Down],
            Stratagem::FX12ShieldGeneratorRelay => vec![Code::Down, Code::Down, Code::Left, Code::Right, Code::Left, Code::Right],
            Stratagem::MG101HMGEmplacement => vec![Code::Down, Code::Up, Code::Left, Code::Right, Code::Right, Code::Left],
            Stratagem::AC8AutocannonSentry => vec![Code::Down, Code::Up, Code::Right, Code::Up, Code::Left, Code::Up],
            Stratagem::MLS4XRocketSentry => vec![Code::Down, Code::Up, Code::Right, Code::Right, Code::Left],
            Stratagem::OrbitalPrecisionStrike => vec![Code::Right, Code::Right, Code::Up],
            Stratagem::OrbitalAirburstStrike => vec![Code::Right, Code::Right, Code::Right],
            Stratagem::Orbital120MMHEBarrage => vec![Code::Right, Code::Right, Code::Down, Code::Left, Code::Right, Code::Down],
            Stratagem::Orbital380MMHEBarrage => vec![Code::Right, Code::Down, Code::Up, Code::Up, Code::Left, Code::Down, Code::Down],
            Stratagem::OrbitalWalkingBarrage => vec![Code::Right, Code::Down, Code::Right, Code::Down, Code::Right, Code::Down],
            Stratagem::OrbitalLaser => vec![Code::Right, Code::Down, Code::Up, Code::Right, Code::Down],
            Stratagem::OrbitalRailcannonStrike => vec![Code::Right, Code::Up, Code::Down, Code::Down, Code::Right],
            Stratagem::OrbitalGatlingBarrage => vec![Code::Right, Code::Down, Code::Left, Code::Up, Code::Up],
            Stratagem::OrbitalGasStrike => vec![Code::Right, Code::Right, Code::Down, Code::Right],
            Stratagem::OrbitalEMSStrike => vec![Code::Right, Code::Right, Code::Left, Code::Down],
            Stratagem::OrbitalSmokeStrike => vec![Code::Right, Code::Right, Code::Down, Code::Up],
            Stratagem::EagleStrafingRun => vec![Code::Up, Code::Right, Code::Right],
            Stratagem::EagleAirstrike => vec![Code::Up, Code::Right, Code::Down, Code::Right],
            Stratagem::EagleClusterBomb => vec![Code::Up, Code::Right, Code::Down, Code::Down, Code::Right],
            Stratagem::EagleNapalmStrike => vec![Code::Up, Code::Right, Code::Down, Code::Up],
            Stratagem::EagleSmokeStrike => vec![Code::Up, Code::Right, Code::Up, Code::Down],
            Stratagem::Eagle110MMRocketPods => vec![Code::Up, Code::Right, Code::Up, Code::Left],
            Stratagem::Eagle500kgBomb => vec![Code::Up, Code::Right, Code::Down, Code::Down, Code::Down],
        };
        proof {
            assert(r@ =~= self.keycode_spec());
        }
        r
    }

    /// Path of the icon shown for this stratagem, relative to the asset folder.
    pub open spec fn image_ext_spec(self) -> Seq<char> {
        match self {
            Stratagem::Resupply => "GeneralStratagems/Resupply.svg"@,
            Stratagem::SOSBeacon => "GeneralStratagems/SOS Beacon.svg"@,
            Stratagem::Reinforce => "GeneralStratagems/Reinforce.svg"@,
            Stratagem::Hellbomb => "GeneralStratagems/Hellbomb.svg"@,
            Stratagem::SSSDDelivery => "GeneralStratagems/Upload Data.svg"@,
            Stratagem::UploadData => "GeneralStratagems/Upload Data.svg"@,
            Stratagem::EagleRearm => "Hangar/EagleRearm.svg"@,
            Stratagem::SeismicProbe => "GeneralStratagems/Seismic Probe.svg"@,
            Stratagem::OrbitalIlluminationFlare => "GeneralStratagems/Orbital Illumination Flare.svg"@,
            Stratagem::SEAFArtillery => "GeneralStratagems/SEAF Artillery.svg"@,
            Stratagem::LAS5GuardDogRover => "EngineeringBay/Guard Dog Rover.svg"@,
            Stratagem::AR23GuardDog => "RoboticsWorkshop/Guard Dog.svg"@,
            Stratagem::LIFT850JumpPack => "Hangar/Jump Pack.svg"@,
            Stratagem::B1SupplyPack => "EngineeringBay/Supply Pack.svg"@,
            Stratagem::SH32ShieldGeneratorPack => "EngineeringBay/Shield Generator Pack.svg"@,
            Stratagem::SH20BallisticShieldBackpack => "EngineeringBay/Ballistic Shield Backpack.svg"@,
            Stratagem::AC8Autocannon => "PatrioticAdministrationCenter/Autocannon.svg"@,
            Stratagem::EAT17ExpendableAntiTank => "PatrioticAdministrationCenter/Expendable Anti-Tank.svg"@,
            Stratagem::FLAM40Flamethrower => "PatrioticAdministrationCenter/Flamethrower.svg"@,
            Stratagem::LAS98LaserCannon => "EngineeringBay/Laser Cannon.svg"@,
            Stratagem::M105Stalwart => "PatrioticAdministrationCenter/Stalwart.svg"@,
            Stratagem::MG43MachineGun => "PatrioticAdministrationCenter/Machine Gun.svg"@,
            Stratagem::ARC3ArcThrower => "EngineeringBay/Arc Thrower.svg"@,
            Stratagem::GL21GrenadeLauncher => "EngineeringBay/Grenade Launcher"@,
            Stratagem::APW1AntiMaterielRifle => "PatrioticAdministrationCenter/Anti-Materiel Rifle.svg"@,
            Stratagem::RS422Railgun => "PatrioticAdministrationCenter/Railgun.svg"@,
            Stratagem::GR8RecoillessRifle => "PatrioticAdministrationCenter/Recoilless Rifle.svg"@,
            Stratagem::FAF14SPEARLauncher => "PatrioticAdministrationCenter/Spear.svg"@,
            Stratagem::LAS99QuasarCannon => "EngineeringBay/Quasar Cannon.svg"@,
            Stratagem::MG206HeavyMachineGun => "PatrioticAdministrationCenter/Heavy Machine Gun.svg"@,
            Stratagem::EXO45PatriotExosuit => "RoboticsWorkshop/Patriotic Exosuit.svg"@,
            Stratagem::ARC3TeslaTower => "Bridge/Tesla Tower.svg"@,
            Stratagem::M12MortarSentry => "RoboticsWorkshop/Mortar Sentry.svg"@,
            Stratagem::M23EMSMortarSentry => "RoboticsWorkshop/EMS Mortar Sentry.svg"@,
            Stratagem::MG43MachineGunSentry => "RoboticsWorkshop/Machine Gun Sentry.svg"@,
            Stratagem::G16GatlingSentry => "RoboticsWorkshop/Gatling Sentry.svg"@,
            Stratagem::MD6AntiPersonnelMinefield => "EngineeringBay/Anti-Personnel Minefield.svg"@,
            Stratagem::MD14IncendiaryMines => "EngineeringBay/Incendiary Mines.svg"@,
            Stratagem::FX12ShieldGeneratorRelay => "Bridge/Shield Generator Relay.svg"@,
            Stratagem::MG101HMGEmplacement => "Bridge/HMG Emplacement.svg"@,
            Stratagem::AC8AutocannonSentry => "RoboticsWorkshop/Autocannon Sentry.svg"@,
            Stratagem::MLS4XRocketSentry => "RoboticsWorkshop/Rocket Sentry.svg"@,
            Stratagem::OrbitalPrecisionStrike => "Bridge/Orbital Precision Strike.svg"@,
            Stratagem::OrbitalAirburstStrike => "OrbitalCannons/Orbital Airburst Strike.svg"@,
            Stratagem::Orbital120MMHEBarrage => "OrbitalCannons/Orbital 120MM HE Barrage.svg"@,
            Stratagem::Orbital380MMHEBarrage => "OrbitalCannons/Orbital 380MM HE Barrage.svg"@,
            Stratagem::OrbitalWalkingBarrage => "OrbitalCannons/Orbital Walking Barrage.svg"@,
            Stratagem::OrbitalLaser => "OrbitalCannons/Orbital Laser.svg"@,
            Stratagem::OrbitalRailcannonStrike => "OrbitalCannons/Orbital Railcannon Strike.svg"@,
            Stratagem::OrbitalGatlingBarrage => "OrbitalCannons/Orbital Gatling Barrage.svg"@,
            Stratagem::OrbitalGasStrike => "Bridge/Orbital Gas Strike.svg"@,
            Stratagem::OrbitalEMSStrike => "Bridge/Orbital EMS Strike.svg"@,
            Stratagem::OrbitalSmokeStrike => "Bridge/Orbital Smoke Strike.svg"@,
            Stratagem::EagleStrafingRun => "Hangar/Eagle Strafing Run.svg"@,
            Stratagem::EagleAirstrike => "Hangar/Eagle Airstrike.svg"@,
            Stratagem::EagleClusterBomb => "Hangar/Eagle Cluster Bomb.svg"@,
            Stratagem::EagleNapalmStrike => "Hangar/Eagle Napalm Strike.svg"@,
            Stratagem::EagleSmokeStrike => "Hangar/Eagle Smoke Strike.svg"@,
            Stratagem::Eagle110MMRocketPods => "Hangar/Eagle 110MM Rocket Pods.svg"@,
            Stratagem::Eagle500kgBomb => "Hangar/Eagle 500KG Bomb.svg"@,
        }
    }

    /// Full path of the icon shown for this stratagem.
    pub open spec fn image_path_spec(self) -> Seq<char> {
        "assets/Helldivers-2-Stratagems-icons-svg/"@ + self.image_ext_spec()
    }

    /// Full path of the icon shown for this stratagem.
    pub fn get_image_path(&self) -> (r: String)
        ensures
            r@ == self.image_path_spec(),
    {
        let asset_folder_path = "assets/Helldivers-2-Stratagems-icons-svg/";
        let extension: &str = match self {
            Stratagem::Resupply => "GeneralStratagems/Resupply.svg",
            Stratagem::SOSBeacon => "GeneralStratagems/SOS Beacon.svg",
            Stratagem::Reinforce => "GeneralStratagems/Reinforce.svg",
            Stratagem::Hellbomb => "GeneralStratagems/Hellbomb.svg",
            Stratagem::SSSDDelivery => "GeneralStratagems/Upload Data.svg",
            Stratagem::UploadData => "GeneralStratagems/Upload Data.svg",
            Stratagem::EagleRearm => "Hangar/EagleRearm.svg",
            Stratagem::SeismicProbe => "GeneralStratagems/Seismic Probe.svg",
            Stratagem::OrbitalIlluminationFlare => "GeneralStratagems/Orbital Illumination Flare.svg",
            Stratagem::SEAFArtillery => "GeneralStratagems/SEAF Artillery.svg",
            Stratagem::LAS5GuardDogRover => "EngineeringBay/Guard Dog Rover.svg",
            Stratagem::AR23GuardDog => "RoboticsWorkshop/Guard Dog.svg",
            Stratagem::LIFT850JumpPack => "Hangar/Jump Pack.svg",
            Stratagem::B1SupplyPack => "EngineeringBay/Supply Pack.svg",
            Stratagem::SH32ShieldGeneratorPack => "EngineeringBay/Shield Generator Pack.svg",
            Stratagem::SH20BallisticShieldBackpack => "EngineeringBay/Ballistic Shield Backpack.svg",
            Stratagem::AC8Autocannon => "PatrioticAdministrationCenter/Autocannon.svg",
            Stratagem::EAT17ExpendableAntiTank => "PatrioticAdministrationCenter/Expendable Anti-Tank.svg",
            Stratagem::FLAM40Flamethrower => "PatrioticAdministrationCenter/Flamethrower.svg",
            Stratagem::LAS98LaserCannon => "EngineeringBay/Laser Cannon.svg",
            Stratagem::M105Stalwart => "PatrioticAdministrationCenter/Stalwart.svg",
            Stratagem::MG43MachineGun => "PatrioticAdministrationCenter/Machine Gun.svg",
            Stratagem::ARC3ArcThrower => "EngineeringBay/Arc Thrower.svg",
            Stratagem::GL21GrenadeLauncher => "EngineeringBay/Grenade Launcher",
            Stratagem::APW1AntiMaterielRifle => "PatrioticAdministrationCenter/Anti-Materiel Rifle.svg",
            Stratagem::RS422Railgun => "PatrioticAdministrationCenter/Railgun.svg",
            Stratagem::GR8RecoillessRifle => "PatrioticAdministrationCenter/Recoilless Rifle.svg",
            Stratagem::FAF14SPEARLauncher => "PatrioticAdministrationCenter/Spear.svg",
            Stratagem::LAS99QuasarCannon => "EngineeringBay/Quasar Cannon.svg",
            Stratagem::MG206HeavyMachineGun => "PatrioticAdministrationCenter/Heavy Machine Gun.svg",
            Stratagem::EXO45PatriotExosuit => "RoboticsWorkshop/Patriotic Exosuit.svg",
            Stratagem::ARC3TeslaTower => "Bridge/Tesla Tower.svg",
            Stratagem::M12MortarSentry => "RoboticsWorkshop/Mortar Sentry.svg",
            Stratagem::M23EMSMortarSentry => "RoboticsWorkshop/EMS Mortar Sentry.svg",
            Stratagem::MG43MachineGunSentry => "RoboticsWorkshop/Machine Gun Sentry.svg",
            Stratagem::G16GatlingSentry => "RoboticsWorkshop/Gatling Sentry.svg",
            Stratagem::MD6AntiPersonnelMinefield => "EngineeringBay/Anti-Personnel Minefield.svg",
            Stratagem::MD14IncendiaryMines => "EngineeringBay/Incendiary Mines.svg",
            Stratagem::FX12ShieldGeneratorRelay => "Bridge/Shield Generator Relay.svg",
            Stratagem::MG101HMGEmplacement => "Bridge/HMG Emplacement.svg",
            Stratagem::AC8AutocannonSentry => "RoboticsWorkshop/Autocannon Sentry.svg",
            Stratagem::MLS4XRocketSentry => "RoboticsWorkshop/Rocket Sentry.svg",
            Stratagem::OrbitalPrecisionStrike => "Bridge/Orbital Precision Strike.svg",
            Stratagem::OrbitalAirburstStrike => "OrbitalCannons/Orbital Airburst Strike.svg",
            Stratagem::Orbital120MMHEBarrage => "OrbitalCannons/Orbital 120MM HE Barrage.svg",
            Stratagem::Orbital380MMHEBarrage => "OrbitalCannons/Orbital 380MM HE Barrage.svg",
            Stratagem::OrbitalWalkingBarrage => "OrbitalCannons/Orbital Walking Barrage.svg",
            Stratagem::OrbitalLaser => "OrbitalCannons/Orbital Laser.svg",
            Stratagem::OrbitalRailcannonStrike => "OrbitalCannons/Orbital Railcannon Strike.svg",
            Stratagem::OrbitalGatlingBarrage => "OrbitalCannons/Orbital Gatling Barrage.svg",
            Stratagem::OrbitalGasStrike => "Bridge/Orbital Gas Strike.svg",
            Stratagem::OrbitalEMSStrike => "Bridge/Orbital EMS Strike.svg",
            Stratagem::OrbitalSmokeStrike => "Bridge/Orbital Smoke Strike.svg",
            Stratagem::EagleStrafingRun => "Hangar/Eagle Strafing Run.svg",
            Stratagem::EagleAirstrike => "Hangar/Eagle Airstrike.svg",
            Stratagem::EagleClusterBomb => "Hangar/Eagle Cluster Bomb.svg",
            Stratagem::EagleNapalmStrike => "Hangar/Eagle Napalm Strike.svg",
            Stratagem::EagleSmokeStrike => "Hangar/Eagle Smoke Strike.svg",
            Stratagem::Eagle110MMRocketPods => "Hangar/Eagle 110MM Rocket Pods.svg",
            Stratagem::Eagle500kgBomb => "Hangar/Eagle 500KG Bomb.svg",
        };
        asset_folder_path.to_owned().concat(extension)
    }

    /// The name under which this stratagem is shown to the user.
    pub open spec fn display_name_spec(self) -> Seq<char> {
        match self {
            Stratagem::Resupply => "Resupply"@,
            Stratagem::SOSBeacon => "SOSBeacon"@,
            Stratagem::Reinforce => "Reinforce"@,
            Stratagem::Hellbomb => "Hellbomb"@,
            Stratagem::SSSDDelivery => "SSSDDelivery"@,
            Stratagem::UploadData => "UploadData"@,
            Stratagem::EagleRearm => "EagleRearm"@,
            Stratagem::SeismicProbe => "SeismicProbe"@,
            Stratagem::OrbitalIlluminationFlare => "OrbitalIlluminationFlare"@,
            Stratagem::SEAFArtillery => "SEAFArtillery"@,
            Stratagem::LAS5GuardDogRover => "LAS5GuardDogRover"@,
            Stratagem::AR23GuardDog => "AR23GuardDog"@,
            Stratagem::LIFT850JumpPack => "LIFT850JumpPack"@,
            Stratagem::B1SupplyPack => "B1SupplyPack"@,
            Stratagem::SH32ShieldGeneratorPack => "SH32ShieldGeneratorPack"@,
            Stratagem::SH20BallisticShieldBackpack => "SH20BallisticShieldBackpack"@,
            Stratagem::AC8Autocannon => "AC8Autocannon"@,
            Stratagem::EAT17ExpendableAntiTank => "EAT17ExpendableAntiTank"@,
            Stratagem::FLAM40Flamethrower => "FLAM40Flamethrower"@,
            Stratagem::LAS98LaserCannon => "LAS98LaserCannon"@,
            Stratagem::M105Stalwart => "M105Stalwart"@,
            Stratagem::MG43MachineGun => "MG43MachineGun"@,
            Stratagem::ARC3ArcThrower => "ARC3ArcThrower"@,
            Stratagem::GL21GrenadeLauncher => "GL21GrenadeLauncher"@,
            Stratagem::APW1AntiMaterielRifle => "APW1AntiMaterielRifle"@,
            Stratagem::RS422Railgun => "RS422Railgun"@,
            Stratagem::GR8RecoillessRifle => "GR8RecoillessRifle"@,
            Stratagem::FAF14SPEARLauncher => "FAF14SPEARLauncher"@,
            Stratagem::LAS99QuasarCannon => "LAS99QuasarCannon"@,
            Stratagem::MG206HeavyMachineGun => "MG206HeavyMachineGun"@,
            Stratagem::EXO45PatriotExosuit => "EXO45PatriotExosuit"@,
            Stratagem::ARC3TeslaTower => "ARC3TeslaTower"@,
            Stratagem::M12MortarSentry => "M12MortarSentry"@,
            Stratagem::M23EMSMortarSentry => "M23EMSMortarSentry"@,
            Stratagem::MG43MachineGunSentry => "MG43MachineGunSentry"@,
            Stratagem::G16GatlingSentry => "G16GatlingSentry"@,
            Stratagem::MD6AntiPersonnelMinefield => "MD6AntiPersonnelMinefield"@,
            Stratagem::MD14IncendiaryMines => "MD14IncendiaryMines"@,
            Stratagem::FX12ShieldGeneratorRelay => "FX12ShieldGeneratorRelay"@,
            Stratagem::MG101HMGEmplacement => "MG101HMGEmplacement"@,
            Stratagem::AC8AutocannonSentry => "AC8AutocannonSentry"@,
            Stratagem::MLS4XRocketSentry => "MLS4XRocketSentry"@,
            Stratagem::OrbitalPrecisionStrike => "OrbitalPrecisionStrike"@,
            Stratagem::OrbitalAirburstStrike => "OrbitalAirburstStrike"@,
            Stratagem::Orbital120MMHEBarrage => "Orbital120MMHEBarrage"@,
            Stratagem::Orbital380MMHEBarrage => "Orbital380MMHEBarrage"@,
            Stratagem::OrbitalWalkingBarrage => "OrbitalWalkingBarrage"@,
            Stratagem::OrbitalLaser => "OrbitalLaser"@,
            Stratagem::OrbitalRailcannonStrike => "OrbitalRailcannonStrike"@,
            Stratagem::OrbitalGatlingBarrage => "OrbitalGatlingBarrage"@,
            Stratagem::OrbitalGasStrike => "OrbitalGasStrike"@,
            Stratagem::OrbitalEMSStrike => "OrbitalEMSStrike"@,
            Stratagem::OrbitalSmokeStrike => "OrbitalSmokeStrike"@,
            Stratagem::EagleStrafingRun => "EagleStrafingRun"@,
            Stratagem::EagleAirstrike => "EagleAirstrike"@,
            Stratagem::EagleClusterBomb => "EagleClusterBomb"@,
            Stratagem::EagleNapalmStrike => "EagleNapalmStrike"@,
            Stratagem::EagleSmokeStrike => "EagleSmokeStrike"@,
            Stratagem::Eagle110MMRocketPods => "Eagle110MMRocketPods"@,
            Stratagem::Eagle500kgBomb => "Eagle500kgBomb"@,
        }
    }

    /// The name under which this stratagem is shown to the user.
    pub fn display_name(&self) -> (r: &str)
        ensures
            r@ == self.display_name_spec(),
    {
        match self {
            Stratagem::Resupply => "Resupply",
            Stratagem::SOSBeacon => "SOSBeacon",
            Stratagem::Reinforce => "Reinforce",
            Stratagem::Hellbomb => "Hellbomb",
            Stratagem::SSSDDelivery => "SSSDDelivery",
            Stratagem::UploadData => "UploadData",
            Stratagem::EagleRearm => "EagleRearm",
            Stratagem::SeismicProbe => "SeismicProbe",
            Stratagem::OrbitalIlluminationFlare => "OrbitalIlluminationFlare",
            Stratagem::SEAFArtillery => "SEAFArtillery",
            Stratagem::LAS5GuardDogRover => "LAS5GuardDogRover",
            Stratagem::AR23GuardDog => "AR23GuardDog",
            Stratagem::LIFT850JumpPack => "LIFT850JumpPack",
            Stratagem::B1SupplyPack => "B1SupplyPack",
            Stratagem::SH32ShieldGeneratorPack => "SH32ShieldGeneratorPack",
            Stratagem::SH20BallisticShieldBackpack => "SH20BallisticShieldBackpack",
            Stratagem::AC8Autocannon => "AC8Autocannon",
            Stratagem::EAT17ExpendableAntiTank => "EAT17ExpendableAntiTank",
            Stratagem::FLAM40Flamethrower => "FLAM40Flamethrower",
            Stratagem::LAS98LaserCannon => "LAS98LaserCannon",
            Stratagem::M105Stalwart => "M105Stalwart",
            Stratagem::MG43MachineGun => "MG43MachineGun",
            Stratagem::ARC3ArcThrower => "ARC3ArcThrower",
            Stratagem::GL21GrenadeLauncher => "GL21GrenadeLauncher",
            Stratagem::APW1AntiMaterielRifle => "APW1AntiMaterielRifle",
            Stratagem::RS422Railgun => "RS422Railgun",
            Stratagem::GR8RecoillessRifle => "GR8RecoillessRifle",
            Stratagem::FAF14SPEARLauncher => "FAF14SPEARLauncher",
            Stratagem::LAS99QuasarCannon => "LAS99QuasarCannon",
            Stratagem::MG206HeavyMachineGun => "MG206HeavyMachineGun",
            Stratagem::EXO45PatriotExosuit => "EXO45PatriotExosuit",
            Stratagem::ARC3TeslaTower => "ARC3TeslaTower",
            Stratagem::M12MortarSentry => "M12MortarSentry",
            Stratagem::M23EMSMortarSentry => "M23EMSMortarSentry",
            Stratagem::MG43MachineGunSentry => "MG43MachineGunSentry",
            Stratagem::G16GatlingSentry => "G16GatlingSentry",
            Stratagem::MD6AntiPersonnelMinefield => "MD6AntiPersonnelMinefield",
            Stratagem::MD14IncendiaryMines => "MD14IncendiaryMines",
            Stratagem::FX12ShieldGeneratorRelay => "FX12ShieldGeneratorRelay",
            Stratagem::MG101HMGEmplacement => "MG101HMGEmplacement",
            Stratagem::AC8AutocannonSentry => "AC8AutocannonSentry",
            Stratagem::MLS4XRocketSentry => "MLS4XRocketSentry",
            Stratagem::OrbitalPrecisionStrike => "OrbitalPrecisionStrike",
            Stratagem::OrbitalAirburstStrike => "OrbitalAirburstStrike",
            Stratagem::Orbital120MMHEBarrage => "Orbital120MMHEBarrage",
            Stratagem::Orbital380MMHEBarrage => "Orbital380MMHEBarrage",
            Stratagem::OrbitalWalkingBarrage => "OrbitalWalkingBarrage",
            Stratagem::OrbitalLaser => "OrbitalLaser",
            Stratagem::OrbitalRailcannonStrike => "OrbitalRailcannonStrike",
            Stratagem::OrbitalGatlingBarrage => "OrbitalGatlingBarrage",
            Stratagem::OrbitalGasStrike => "OrbitalGasStrike",
            Stratagem::OrbitalEMSStrike => "OrbitalEMSStrike",
            Stratagem::OrbitalSmokeStrike => "OrbitalSmokeStrike",
            Stratagem::EagleStrafingRun => "EagleStrafingRun",
            Stratagem::EagleAirstrike => "EagleAirstrike",
            Stratagem::EagleClusterBomb => "EagleClusterBomb",
            Stratagem::EagleNapalmStrike => "EagleNapalmStrike",
            Stratagem::EagleSmokeStrike => "EagleSmokeStrike",
            Stratagem::Eagle110MMRocketPods => "Eagle110MMRocketPods",
            Stratagem::Eagle500kgBomb => "Eagle500kgBomb",
        }
    }

    /// Every stratagem of the catalog, in catalog order.
    pub open spec fn all_spec() -> Seq<Stratagem> {
        seq![
            Stratagem::Resupply,
            Stratagem::SOSBeacon,
            Stratagem::Reinforce,
            Stratagem::Hellbomb,
            Stratagem::SSSDDelivery,
            Stratagem::UploadData,
            Stratagem::EagleRearm,
            Stratagem::SeismicProbe,
            Stratagem::OrbitalIlluminationFlare,
            Stratagem::SEAFArtillery,
            Stratagem::LAS5GuardDogRover,
            Stratagem::AR23GuardDog,
            Stratagem::LIFT850JumpPack,
            Stratagem::B1SupplyPack,
            Stratagem::SH32ShieldGeneratorPack,
            Stratagem::SH20BallisticShieldBackpack,
            Stratagem::AC8Autocannon,
            Stratagem::EAT17ExpendableAntiTank,
            Stratagem::FLAM40Flamethrower,
            Stratagem::LAS98LaserCannon,
            Stratagem::M105Stalwart,
            Stratagem::MG43MachineGun,
            Stratagem::ARC3ArcThrower,
            Stratagem::GL21GrenadeLauncher,
            Stratagem::APW1AntiMaterielRifle,
            Stratagem::RS422Railgun,
            Stratagem::GR8RecoillessRifle,
            Stratagem::FAF14SPEARLauncher,
            Stratagem::LAS99QuasarCannon,
            Stratagem::MG206HeavyMachineGun,
            Stratagem::EXO45PatriotExosuit,
            Stratagem::ARC3TeslaTower,
            Stratagem::M12MortarSentry,
            Stratagem::M23EMSMortarSentry,
            Stratagem::MG43MachineGunSentry,
            Stratagem::G16GatlingSentry,
            Stratagem::MD6AntiPersonnelMinefield,
            Stratagem::MD14IncendiaryMines,
            Stratagem::FX12ShieldGeneratorRelay,
            Stratagem::MG101HMGEmplacement,
            Stratagem::AC8AutocannonSentry,
            Stratagem::MLS4XRocketSentry,
            Stratagem::OrbitalPrecisionStrike,
            Stratagem::OrbitalAirburstStrike,
            Stratagem::Orbital120MMHEBarrage,
            Stratagem::Orbital380MMHEBarrage,
            Stratagem::OrbitalWalkingBarrage,
            Stratagem::OrbitalLaser,
            Stratagem::OrbitalRailcannonStrike,
            Stratagem::OrbitalGatlingBarrage,
            Stratagem::OrbitalGasStrike,
            Stratagem::OrbitalEMSStrike,
            Stratagem::OrbitalSmokeStrike,
            Stratagem::EagleStrafingRun,
            Stratagem::EagleAirstrike,
            Stratagem::EagleClusterBomb,
            Stratagem::EagleNapalmStrike,
            Stratagem::EagleSmokeStrike,
            Stratagem::Eagle110MMRocketPods,
            Stratagem::Eagle500kgBomb,
        ]
    }

    /// Every stratagem of the catalog, in catalog order.
    pub fn all() -> (r: Vec<Stratagem>)
        ensures
            r@ == Stratagem::all_spec(),
            r@.len() == STRATAGEM_COUNT,
    {
        let r: Vec<Stratagem> = vec![
            Stratagem::Resupply,
            Stratagem::SOSBeacon,
            Stratagem::Reinforce,
            Stratagem::Hellbomb,
            Stratagem::SSSDDelivery,
            Stratagem::UploadData,
            Stratagem::EagleRearm,
            Stratagem::SeismicProbe,
            Stratagem::OrbitalIlluminationFlare,
            Stratagem::SEAFArtillery,
            Stratagem::LAS5GuardDogRover,
            Stratagem::AR23GuardDog,
            Stratagem::LIFT850JumpPack,
            Stratagem::B1SupplyPack,
            Stratagem::SH32ShieldGeneratorPack,
            Stratagem::SH20BallisticShieldBackpack,
            Stratagem::AC8Autocannon,
            Stratagem::EAT17ExpendableAntiTank,
            Stratagem::FLAM40Flamethrower,
            Stratagem::LAS98LaserCannon,
            Stratagem::M105Stalwart,
            Stratagem::MG43MachineGun,
            Stratagem::ARC3ArcThrower,
            Stratagem::GL21GrenadeLauncher,
            Stratagem::APW1AntiMaterielRifle,
            Stratagem::RS422Railgun,
            Stratagem::GR8RecoillessRifle,
            Stratagem::FAF14SPEARLauncher,
            Stratagem::LAS99QuasarCannon,
            Stratagem::MG206HeavyMachineGun,
            Stratagem::EXO45PatriotExosuit,
            Stratagem::ARC3TeslaTower,
            Stratagem::M12MortarSentry,
            Stratagem::M23EMSMortarSentry,
            Stratagem::MG43MachineGunSentry,
            Stratagem::G16GatlingSentry,
            Stratagem::MD6AntiPersonnelMinefield,
            Stratagem::MD14IncendiaryMines,
            Stratagem::FX12ShieldGeneratorRelay,
            Stratagem::MG101HMGEmplacement,
            Stratagem::AC8AutocannonSentry,
            Stratagem::MLS4XRocketSentry,
            Stratagem::OrbitalPrecisionStrike,
            Stratagem::OrbitalAirburstStrike,
            Stratagem::Orbital120MMHEBarrage,
            Stratagem::Orbital380MMHEBarrage,
            Stratagem::OrbitalWalkingBarrage,
            Stratagem::OrbitalLaser,
            Stratagem::OrbitalRailcannonStrike,
            Stratagem::OrbitalGatlingBarrage,
            Stratagem::OrbitalGasStrike,
            Stratagem::OrbitalEMSStrike,
            Stratagem::OrbitalSmokeStrike,
            Stratagem::EagleStrafingRun,
            Stratagem::EagleAirstrike,
            Stratagem::EagleClusterBomb,
            Stratagem::EagleNapalmStrike,
            Stratagem::EagleSmokeStrike,
            Stratagem::Eagle110MMRocketPods,
            Stratagem::Eagle500kgBomb,
        ];
        proof {
            assert(r@ =~= Stratagem::all_spec());
        }
        r
    }
}

/// Every catalog entry has a non-empty keycode: a malformed (empty) entry
/// cannot occur, so a full match is never trivially true on the first event.
pub proof fn lemma_keycode_nonempty(s: Stratagem)
    ensures
        s.keycode_spec().len() >= 1,
{
}

} // verus!
