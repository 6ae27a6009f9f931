//! The SAE identity tables the 64-bit Name's fields draw from: industry
//! groups and the per-industry function codes, each with its byte code.

use vstd::prelude::*;

verus! {

/// The industry groups a Name can declare.
#[derive(Clone, Copy, Debug, PartialEq, Eq, Structural)]
pub enum IndustryGroup {
    Global,
    OnHighwayEquipment,
    AgriculturalAndForestryEquipment,
    ConstructionEquipment,
    MarineEquipment,
    IndustrialProcessControl,
    ReservedForSAE1,
    ReservedForSAE2,
}

impl IndustryGroup {
    /// The SAE code of this entry.
    pub open spec fn spec_code(self) -> u8 {
        match self {
            IndustryGroup::Global => 0,
            IndustryGroup::OnHighwayEquipment => 1,
            IndustryGroup::AgriculturalAndForestryEquipment => 2,
            IndustryGroup::ConstructionEquipment => 3,
            IndustryGroup::MarineEquipment => 4,
            IndustryGroup::IndustrialProcessControl => 5,
            IndustryGroup::ReservedForSAE1 => 6,
            IndustryGroup::ReservedForSAE2 => 7,
        }
    }

    pub fn as_u8(&self) -> (r: u8)
        ensures
            r == self.spec_code(),
    {
        match self {
            IndustryGroup::Global => 0,
            IndustryGroup::OnHighwayEquipment => 1,
            IndustryGroup::AgriculturalAndForestryEquipment => 2,
            IndustryGroup::ConstructionEquipment => 3,
            IndustryGroup::MarineEquipment => 4,
            IndustryGroup::IndustrialProcessControl => 5,
            IndustryGroup::ReservedForSAE1 => 6,
            IndustryGroup::ReservedForSAE2 => 7,
        }
    }

    /// Decode an SAE code; codes without a listed entry map to `Global`.
    pub fn from_u8(value: u8) -> (r: IndustryGroup)
        ensures
            value <= 7 ==> r.spec_code() == value,
            value > 7 ==> r == IndustryGroup::Global,
    {
        match value {
            0 => IndustryGroup::Global,
            1 => IndustryGroup::OnHighwayEquipment,
            2 => IndustryGroup::AgriculturalAndForestryEquipment,
            3 => IndustryGroup::ConstructionEquipment,
            4 => IndustryGroup::MarineEquipment,
            5 => IndustryGroup::IndustrialProcessControl,
            6 => IndustryGroup::ReservedForSAE1,
            7 => IndustryGroup::ReservedForSAE2,
            _ => IndustryGroup::Global,
        }
    }
}

/// Functions defined for every industry group.
#[derive(Clone, Copy, Debug, PartialEq, Eq, Structural)]
pub enum GlobalFunctionEnum {
    Engine,
    AuxiliaryPowerUnit,
    ElectricPropulsionControl,
    Transmission,
    BatteryPackMonitor,
    ShiftControlConsole,
    PowerTakeOff,
    AxleSteering,
    AxleDrive,
    BrakesSystemController,
    BrakesSteerAxle,
    BrakesDriveAxle,
    RetarderEngine,
    RetarderDriveline,
    CruiseControl,
    FuelSystem,
    SteeringController,
    SuspensionSteerAxle,
    SuspensionDriveAxle,
    InstrumentCluster,
    TripRecorder,
    CabClimateControl,
    AerodynamicControl,
    VehicleNavigation,
    VehicleSecurity,
    NetworkInterconnectECU,
    BodyController,
    PowerTakeOffFront,
    OffVehicleGateway,
    VirtualTerminal,
    ManagementComputer,
    PropulsionBatteryCharger,
    HeadwayController,
    SystemMonitor,
    HydraulicPumpController,
    SuspensionSystemController,
    PneumaticSystemController,
    CabController,
    TirePressureControl,
    IgnitionControlModule,
    SeatControl,
    LightingOperatorControls,
    WaterPumpControl,
    TransmissionDisplay,
    ExhaustEmissionControl,
    VehicleDynamicStabilityControl,
    OilSensorUnit,
    InformationSystemController,
    RampControl,
    ClutchConverterControl,
    AuxiliaryHeater,
    ForwardLookingCollisionWarningSystem,
    ChassisController,
    AlternatorChargingSystem,
    CommunicationsUnitCellular,
    CommunicationsUnitSatellite,
    CommunicationsUnitRadio,
    SteeringColumnUnit,
    FanDriveControl,
    Starter,
    CabDisplay,
    FileServerPrinter,
    OnBoardDiagnosticUnit,
    EngineValveController,
    EnduranceBraking,
    GasFlowMeasurement,
    IOController,
    ElectricalSystemController,
    AfterTreatmentSystemGasMeasurement,
    EngineEmissionAfterTreatmentSystem,
    AuxiliaryRegenerationDevice,
    TransferCaseControl,
    CoolantValveController,
    RolloverDetectionControl,
    LubricationSystem,
    SupplementalFan,
    TemperatureSensor,
    FuelPropertiesSensor,
    FireSuppressionSystem,
    PowerSystemsManager,
    ElectricPowertrain,
    HydraulicPowertrain,
    FileServer,
    Printer,
    StartAidDevice,
    EngineInjectionControlModule,
    EVCommunicationController,
    DriverImpairmentDevice,
    ElectricPowerConverter,
    SupplyEquipmentCommunicationController,
    VehicleAdapterCommunicationController,
    Reserved,
    OffBoardDiagnosticServiceTool,
    OnBoardDataLogger,
    PCKeyboard,
    SafetyRestraintSystem,
    Turbocharger,
    GroundBasedSpeedSensor,
    Keypad,
    HumiditySensor,
    ThermalManagementSystemController,
    BrakeStrokeAlert,
    OnBoardAxleGroupScale,
    OnBoardAxleGroupDisplay,
    BatteryCharger,
    TurbochargerCompressorBypass,
    TurbochargerWastegate,
    Throttle,
    InertialSensor,
    FuelActuator,
    EngineExhaustGasRecirculation,
    EngineExhaustBackpressure,
    OnBoardBinWeighingScale,
    OnBoardBinWeighingScaleDisplay,
    EngineCylinderPressureMonitoringSystem,
    ObjectDetection,
    ObjectDetectionDisplay,
    ObjectDetectionSensor,
    PersonnelDetectionDevice,
    NotAvailable,
}

impl GlobalFunctionEnum {
    /// The SAE code of this entry.
    pub open spec fn spec_code(self) -> u8 {
        match self {
            GlobalFunctionEnum::Engine => 0,
            GlobalFunctionEnum::AuxiliaryPowerUnit => 1,
            GlobalFunctionEnum::ElectricPropulsionControl => 2,
            GlobalFunctionEnum::Transmission => 3,
            GlobalFunctionEnum::BatteryPackMonitor => 4,
            GlobalFunctionEnum::ShiftControlConsole => 5,
            GlobalFunctionEnum::PowerTakeOff => 6,
            GlobalFunctionEnum::AxleSteering => 7,
            GlobalFunctionEnum::AxleDrive => 8,
            GlobalFunctionEnum::BrakesSystemController => 9,
            GlobalFunctionEnum::BrakesSteerAxle => 10,
            GlobalFunctionEnum::BrakesDriveAxle => 11,
            GlobalFunctionEnum::RetarderEngine => 12,
            GlobalFunctionEnum::RetarderDriveline => 13,
            GlobalFunctionEnum::CruiseControl => 14,
            GlobalFunctionEnum::FuelSystem => 15,
            GlobalFunctionEnum::SteeringController => 16,
            GlobalFunctionEnum::SuspensionSteerAxle => 17,
            GlobalFunctionEnum::SuspensionDriveAxle => 18,
            GlobalFunctionEnum::InstrumentCluster => 19,
            GlobalFunctionEnum::TripRecorder => 20,
            GlobalFunctionEnum::CabClimateControl => 21,
            GlobalFunctionEnum::AerodynamicControl => 22,
            GlobalFunctionEnum::VehicleNavigation => 23,
            GlobalFunctionEnum::VehicleSecurity => 24,
            GlobalFunctionEnum::NetworkInterconnectECU => 25,
            GlobalFunctionEnum::BodyController => 26,
            GlobalFunctionEnum::PowerTakeOffFront => 27,
            GlobalFunctionEnum::OffVehicleGateway => 28,
            GlobalFunctionEnum::VirtualTerminal => 29,
            GlobalFunctionEnum::ManagementComputer => 30,
            GlobalFunctionEnum::PropulsionBatteryCharger => 31,
            GlobalFunctionEnum::HeadwayController => 32,
            GlobalFunctionEnum::SystemMonitor => 33,
            GlobalFunctionEnum::HydraulicPumpController => 34,
            GlobalFunctionEnum::SuspensionSystemController => 35,
            GlobalFunctionEnum::PneumaticSystemController => 36,
            GlobalFunctionEnum::CabController => 37,
            GlobalFunctionEnum::TirePressureControl => 38,
            GlobalFunctionEnum::IgnitionControlModule => 39,
            GlobalFunctionEnum::SeatControl => 40,
            GlobalFunctionEnum::LightingOperatorControls => 41,
            GlobalFunctionEnum::WaterPumpControl => 42,
            GlobalFunctionEnum::TransmissionDisplay => 43,
            GlobalFunctionEnum::ExhaustEmissionControl => 44,
            GlobalFunctionEnum::VehicleDynamicStabilityControl => 45,
            GlobalFunctionEnum::OilSensorUnit => 46,
            GlobalFunctionEnum::InformationSystemController => 47,
            GlobalFunctionEnum::RampControl => 48,
            GlobalFunctionEnum::ClutchConverterControl => 49,
            GlobalFunctionEnum::AuxiliaryHeater => 50,
            GlobalFunctionEnum::ForwardLookingCollisionWarningSystem => 51,
            GlobalFunctionEnum::ChassisController => 52,
            GlobalFunctionEnum::AlternatorChargingSystem => 53,
            GlobalFunctionEnum::CommunicationsUnitCellular => 54,
            GlobalFunctionEnum::CommunicationsUnitSatellite => 55,
            GlobalFunctionEnum::CommunicationsUnitRadio => 56,
            GlobalFunctionEnum::SteeringColumnUnit => 57,
            GlobalFunctionEnum::FanDriveControl => 58,
            GlobalFunctionEnum::Starter => 59,
            GlobalFunctionEnum::CabDisplay => 60,
            GlobalFunctionEnum::FileServerPrinter => 61,
            GlobalFunctionEnum::OnBoardDiagnosticUnit => 62,
            GlobalFunctionEnum::EngineValveController => 63,
            GlobalFunctionEnum::EnduranceBraking => 64,
            GlobalFunctionEnum::GasFlowMeasurement => 65,
            GlobalFunctionEnum::IOController => 66,
            GlobalFunctionEnum::ElectricalSystemController => 67,
            GlobalFunctionEnum::AfterTreatmentSystemGasMeasurement => 68,
            GlobalFunctionEnum::EngineEmissionAfterTreatmentSystem => 69,
            GlobalFunctionEnum::AuxiliaryRegenerationDevice => 70,
            GlobalFunctionEnum::TransferCaseControl => 71,
            GlobalFunctionEnum::CoolantValveController => 72,
            GlobalFunctionEnum::RolloverDetectionControl => 73,
            GlobalFunctionEnum::LubricationSystem => 74,
            GlobalFunctionEnum::SupplementalFan => 75,
            GlobalFunctionEnum::TemperatureSensor => 76,
            GlobalFunctionEnum::FuelPropertiesSensor => 77,
            GlobalFunctionEnum::FireSuppressionSystem => 78,
            GlobalFunctionEnum::PowerSystemsManager => 79,
            GlobalFunctionEnum::ElectricPowertrain => 80,
            GlobalFunctionEnum::HydraulicPowertrain => 81,
            GlobalFunctionEnum::FileServer => 82,
            GlobalFunctionEnum::Printer => 83,
            GlobalFunctionEnum::StartAidDevice => 84,
            GlobalFunctionEnum::EngineInjectionControlModule => 85,
            GlobalFunctionEnum::EVCommunicationController => 86,
            GlobalFunctionEnum::DriverImpairmentDevice => 87,
            GlobalFunctionEnum::ElectricPowerConverter => 88,
            GlobalFunctionEnum::SupplyEquipmentCommunicationController => 89,
            GlobalFunctionEnum::VehicleAdapterCommunicationController => 90,
            GlobalFunctionEnum::Reserved => 128,
            GlobalFunctionEnum::OffBoardDiagnosticServiceTool => 129,
            GlobalFunctionEnum::OnBoardDataLogger => 130,
            GlobalFunctionEnum::PCKeyboard => 131,
            GlobalFunctionEnum::SafetyRestraintSystem => 132,
            GlobalFunctionEnum::Turbocharger => 133,
            GlobalFunctionEnum::GroundBasedSpeedSensor => 134,
            GlobalFunctionEnum::Keypad => 135,
            GlobalFunctionEnum::HumiditySensor => 136,
            GlobalFunctionEnum::ThermalManagementSystemController => 137,
            GlobalFunctionEnum::BrakeStrokeAlert => 138,
            GlobalFunctionEnum::OnBoardAxleGroupScale => 139,
            GlobalFunctionEnum::OnBoardAxleGroupDisplay => 140,
            GlobalFunctionEnum::BatteryCharger => 141,
            GlobalFunctionEnum::TurbochargerCompressorBypass => 142,
            GlobalFunctionEnum::TurbochargerWastegate => 143,
            GlobalFunctionEnum::Throttle => 144,
            GlobalFunctionEnum::InertialSensor => 145,
            GlobalFunctionEnum::FuelActuator => 146,
            GlobalFunctionEnum::EngineExhaustGasRecirculation => 147,
            GlobalFunctionEnum::EngineExhaustBackpressure => 148,
            GlobalFunctionEnum::OnBoardBinWeighingScale => 149,
            GlobalFunctionEnum::OnBoardBinWeighingScaleDisplay => 150,
            GlobalFunctionEnum::EngineCylinderPressureMonitoringSystem => 151,
            GlobalFunctionEnum::ObjectDetection => 152,
            GlobalFunctionEnum::ObjectDetectionDisplay => 153,
            GlobalFunctionEnum::ObjectDetectionSensor => 154,
            GlobalFunctionEnum::PersonnelDetectionDevice => 155,
            GlobalFunctionEnum::NotAvailable => 255,
        }
    }

    pub fn as_u8(&self) -> (r: u8)
        ensures
            r == self.spec_code(),
    {
        match self {
            GlobalFunctionEnum::Engine => 0,
            GlobalFunctionEnum::AuxiliaryPowerUnit => 1,
            GlobalFunctionEnum::ElectricPropulsionControl => 2,
            GlobalFunctionEnum::Transmission => 3,
            GlobalFunctionEnum::BatteryPackMonitor => 4,
            GlobalFunctionEnum::ShiftControlConsole => 5,
            GlobalFunctionEnum::PowerTakeOff => 6,
            GlobalFunctionEnum::AxleSteering => 7,
            GlobalFunctionEnum::AxleDrive => 8,
            GlobalFunctionEnum::BrakesSystemController => 9,
            GlobalFunctionEnum::BrakesSteerAxle => 10,
            GlobalFunctionEnum::BrakesDriveAxle => 11,
            GlobalFunctionEnum::RetarderEngine => 12,
            GlobalFunctionEnum::RetarderDriveline => 13,
            GlobalFunctionEnum::CruiseControl => 14,
            GlobalFunctionEnum::FuelSystem => 15,
            GlobalFunctionEnum::SteeringController => 16,
            GlobalFunctionEnum::SuspensionSteerAxle => 17,
            GlobalFunctionEnum::SuspensionDriveAxle => 18,
            GlobalFunctionEnum::InstrumentCluster => 19,
            GlobalFunctionEnum::TripRecorder => 20,
            GlobalFunctionEnum::CabClimateControl => 21,
            GlobalFunctionEnum::AerodynamicControl => 22,
            GlobalFunctionEnum::VehicleNavigation => 23,
            GlobalFunctionEnum::VehicleSecurity => 24,
            GlobalFunctionEnum::NetworkInterconnectECU => 25,
            GlobalFunctionEnum::BodyController => 26,
            GlobalFunctionEnum::PowerTakeOffFront => 27,
            GlobalFunctionEnum::OffVehicleGateway => 28,
            GlobalFunctionEnum::VirtualTerminal => 29,
            GlobalFunctionEnum::ManagementComputer => 30,
            GlobalFunctionEnum::PropulsionBatteryCharger => 31,
            GlobalFunctionEnum::HeadwayController => 32,
            GlobalFunctionEnum::SystemMonitor => 33,
            GlobalFunctionEnum::HydraulicPumpController => 34,
            GlobalFunctionEnum::SuspensionSystemController => 35,
            GlobalFunctionEnum::PneumaticSystemController => 36,
            GlobalFunctionEnum::CabController => 37,
            GlobalFunctionEnum::TirePressureControl => 38,
            GlobalFunctionEnum::IgnitionControlModule => 39,
            GlobalFunctionEnum::SeatControl => 40,
            GlobalFunctionEnum::LightingOperatorControls => 41,
            GlobalFunctionEnum::WaterPumpControl => 42,
            GlobalFunctionEnum::TransmissionDisplay => 43,
            GlobalFunctionEnum::ExhaustEmissionControl => 44,
            GlobalFunctionEnum::VehicleDynamicStabilityControl => 45,
            GlobalFunctionEnum::OilSensorUnit => 46,
            GlobalFunctionEnum::InformationSystemController => 47,
            GlobalFunctionEnum::RampControl => 48,
            GlobalFunctionEnum::ClutchConverterControl => 49,
            GlobalFunctionEnum::AuxiliaryHeater => 50,
            GlobalFunctionEnum::ForwardLookingCollisionWarningSystem => 51,
            GlobalFunctionEnum::ChassisController => 52,
            GlobalFunctionEnum::AlternatorChargingSystem => 53,
            GlobalFunctionEnum::CommunicationsUnitCellular => 54,
            GlobalFunctionEnum::CommunicationsUnitSatellite => 55,
            GlobalFunctionEnum::CommunicationsUnitRadio => 56,
            GlobalFunctionEnum::SteeringColumnUnit => 57,
            GlobalFunctionEnum::FanDriveControl => 58,
            GlobalFunctionEnum::Starter => 59,
            GlobalFunctionEnum::CabDisplay => 60,
            GlobalFunctionEnum::FileServerPrinter => 61,
            GlobalFunctionEnum::OnBoardDiagnosticUnit => 62,
            GlobalFunctionEnum::EngineValveController => 63,
            GlobalFunctionEnum::EnduranceBraking => 64,
            GlobalFunctionEnum::GasFlowMeasurement => 65,
            GlobalFunctionEnum::IOController => 66,
            GlobalFunctionEnum::ElectricalSystemController => 67,
            GlobalFunctionEnum::AfterTreatmentSystemGasMeasurement => 68,
            GlobalFunctionEnum::EngineEmissionAfterTreatmentSystem => 69,
            GlobalFunctionEnum::AuxiliaryRegenerationDevice => 70,
            GlobalFunctionEnum::TransferCaseControl => 71,
            GlobalFunctionEnum::CoolantValveController => 72,
            GlobalFunctionEnum::RolloverDetectionControl => 73,
            GlobalFunctionEnum::LubricationSystem => 74,
            GlobalFunctionEnum::SupplementalFan => 75,
            GlobalFunctionEnum::TemperatureSensor => 76,
            GlobalFunctionEnum::FuelPropertiesSensor => 77,
            GlobalFunctionEnum::FireSuppressionSystem => 78,
            GlobalFunctionEnum::PowerSystemsManager => 79,
            GlobalFunctionEnum::ElectricPowertrain => 80,
            GlobalFunctionEnum::HydraulicPowertrain => 81,
            GlobalFunctionEnum::FileServer => 82,
            GlobalFunctionEnum::Printer => 83,
            GlobalFunctionEnum::StartAidDevice => 84,
            GlobalFunctionEnum::EngineInjectionControlModule => 85,
            GlobalFunctionEnum::EVCommunicationController => 86,
            GlobalFunctionEnum::DriverImpairmentDevice => 87,
            GlobalFunctionEnum::ElectricPowerConverter => 88,
            GlobalFunctionEnum::SupplyEquipmentCommunicationController => 89,
            GlobalFunctionEnum::VehicleAdapterCommunicationController => 90,
            GlobalFunctionEnum::Reserved => 128,
            GlobalFunctionEnum::OffBoardDiagnosticServiceTool => 129,
            GlobalFunctionEnum::OnBoardDataLogger => 130,
            GlobalFunctionEnum::PCKeyboard => 131,
            GlobalFunctionEnum::SafetyRestraintSystem => 132,
            GlobalFunctionEnum::Turbocharger => 133,
            GlobalFunctionEnum::GroundBasedSpeedSensor => 134,
            GlobalFunctionEnum::Keypad => 135,
            GlobalFunctionEnum::HumiditySensor => 136,
            GlobalFunctionEnum::ThermalManagementSystemController => 137,
            GlobalFunctionEnum::BrakeStrokeAlert => 138,
            GlobalFunctionEnum::OnBoardAxleGroupScale => 139,
            GlobalFunctionEnum::OnBoardAxleGroupDisplay => 140,
            GlobalFunctionEnum::BatteryCharger => 141,
            GlobalFunctionEnum::TurbochargerCompressorBypass => 142,
            GlobalFunctionEnum::TurbochargerWastegate => 143,
            GlobalFunctionEnum::Throttle => 144,
            GlobalFunctionEnum::InertialSensor => 145,
            GlobalFunctionEnum::FuelActuator => 146,
            GlobalFunctionEnum::EngineExhaustGasRecirculation => 147,
            GlobalFunctionEnum::EngineExhaustBackpressure => 148,
            GlobalFunctionEnum::OnBoardBinWeighingScale => 149,
            GlobalFunctionEnum::OnBoardBinWeighingScaleDisplay => 150,
            GlobalFunctionEnum::EngineCylinderPressureMonitoringSystem => 151,
            GlobalFunctionEnum::ObjectDetection => 152,
            GlobalFunctionEnum::ObjectDetectionDisplay => 153,
            GlobalFunctionEnum::ObjectDetectionSensor => 154,
            GlobalFunctionEnum::PersonnelDetectionDevice => 155,
            GlobalFunctionEnum::NotAvailable => 255,
        }
    }

    /// Decode an SAE code; codes without a listed entry map to `NotAvailable`.
    pub fn from_u8(value: u8) -> (r: GlobalFunctionEnum)
        ensures
            value <= 90 || 128 <= value <= 155 || value == 255 ==> r.spec_code() == value,
            !(value <= 90 || 128 <= value <= 155 || value == 255) ==> r
                == GlobalFunctionEnum::NotAvailable,
    {
        match value {
            0 => GlobalFunctionEnum::Engine,
            1 => GlobalFunctionEnum::AuxiliaryPowerUnit,
            2 => GlobalFunctionEnum::ElectricPropulsionControl,
            3 => GlobalFunctionEnum::Transmission,
            4 => GlobalFunctionEnum::BatteryPackMonitor,
            5 => GlobalFunctionEnum::ShiftControlConsole,
            6 => GlobalFunctionEnum::PowerTakeOff,
            7 => GlobalFunctionEnum::AxleSteering,
            8 => GlobalFunctionEnum::AxleDrive,
            9 => GlobalFunctionEnum::BrakesSystemController,
            10 => GlobalFunctionEnum::BrakesSteerAxle,
            11 => GlobalFunctionEnum::BrakesDriveAxle,
            12 => GlobalFunctionEnum::RetarderEngine,
            13 => GlobalFunctionEnum::RetarderDriveline,
            14 => GlobalFunctionEnum::CruiseControl,
            15 => GlobalFunctionEnum::FuelSystem,
            16 => GlobalFunctionEnum::SteeringController,
            17 => GlobalFunctionEnum::SuspensionSteerAxle,
            18 => GlobalFunctionEnum::SuspensionDriveAxle,
            19 => GlobalFunctionEnum::InstrumentCluster,
            20 => GlobalFunctionEnum::TripRecorder,
            21 => GlobalFunctionEnum::CabClimateControl,
            22 => GlobalFunctionEnum::AerodynamicControl,
            23 => GlobalFunctionEnum::VehicleNavigation,
            24 => GlobalFunctionEnum::VehicleSecurity,
            25 => GlobalFunctionEnum::NetworkInterconnectECU,
            26 => GlobalFunctionEnum::BodyController,
            27 => GlobalFunctionEnum::PowerTakeOffFront,
            28 => GlobalFunctionEnum::OffVehicleGateway,
            29 => GlobalFunctionEnum::VirtualTerminal,
            30 => GlobalFunctionEnum::ManagementComputer,
            31 => GlobalFunctionEnum::PropulsionBatteryCharger,
            32 => GlobalFunctionEnum::HeadwayController,
            33 => GlobalFunctionEnum::SystemMonitor,
            34 => GlobalFunctionEnum::HydraulicPumpController,
            35 => GlobalFunctionEnum::SuspensionSystemController,
            36 => GlobalFunctionEnum::PneumaticSystemController,
            37 => GlobalFunctionEnum::CabController,
            38 => GlobalFunctionEnum::TirePressureControl,
            39 => GlobalFunctionEnum::IgnitionControlModule,
            40 => GlobalFunctionEnum::SeatControl,
            41 => GlobalFunctionEnum::LightingOperatorControls,
            42 => GlobalFunctionEnum::WaterPumpControl,
            43 => GlobalFunctionEnum::TransmissionDisplay,
            44 => GlobalFunctionEnum::ExhaustEmissionControl,
            45 => GlobalFunctionEnum::VehicleDynamicStabilityControl,
            46 => GlobalFunctionEnum::OilSensorUnit,
            47 => GlobalFunctionEnum::InformationSystemController,
            48 => GlobalFunctionEnum::RampControl,
            49 => GlobalFunctionEnum::ClutchConverterControl,
            50 => GlobalFunctionEnum::AuxiliaryHeater,
            51 => GlobalFunctionEnum::ForwardLookingCollisionWarningSystem,
            52 => GlobalFunctionEnum::ChassisController,
            53 => GlobalFunctionEnum::AlternatorChargingSystem,
            54 => GlobalFunctionEnum::CommunicationsUnitCellular,
            55 => GlobalFunctionEnum::CommunicationsUnitSatellite,
            56 => GlobalFunctionEnum::CommunicationsUnitRadio,
            57 => GlobalFunctionEnum::SteeringColumnUnit,
            58 => GlobalFunctionEnum::FanDriveControl,
            59 => GlobalFunctionEnum::Starter,
            60 => GlobalFunctionEnum::CabDisplay,
            61 => GlobalFunctionEnum::FileServerPrinter,
            62 => GlobalFunctionEnum::OnBoardDiagnosticUnit,
            63 => GlobalFunctionEnum::EngineValveController,
            64 => GlobalFunctionEnum::EnduranceBraking,
            65 => GlobalFunctionEnum::GasFlowMeasurement,
            66 => GlobalFunctionEnum::IOController,
            67 => GlobalFunctionEnum::ElectricalSystemController,
            68 => GlobalFunctionEnum::AfterTreatmentSystemGasMeasurement,
            69 => GlobalFunctionEnum::EngineEmissionAfterTreatmentSystem,
            70 => GlobalFunctionEnum::AuxiliaryRegenerationDevice,
            71 => GlobalFunctionEnum::TransferCaseControl,
            72 => GlobalFunctionEnum::CoolantValveController,
            73 => GlobalFunctionEnum::RolloverDetectionControl,
            74 => GlobalFunctionEnum::LubricationSystem,
            75 => GlobalFunctionEnum::SupplementalFan,
            76 => GlobalFunctionEnum::TemperatureSensor,
            77 => GlobalFunctionEnum::FuelPropertiesSensor,
            78 => GlobalFunctionEnum::FireSuppressionSystem,
            79 => GlobalFunctionEnum::PowerSystemsManager,
            80 => GlobalFunctionEnum::ElectricPowertrain,
            81 => GlobalFunctionEnum::HydraulicPowertrain,
            82 => GlobalFunctionEnum::FileServer,
            83 => GlobalFunctionEnum::Printer,
            84 => GlobalFunctionEnum::StartAidDevice,
            85 => GlobalFunctionEnum::EngineInjectionControlModule,
            86 => GlobalFunctionEnum::EVCommunicationController,
            87 => GlobalFunctionEnum::DriverImpairmentDevice,
            88 => GlobalFunctionEnum::ElectricPowerConverter,
            89 => GlobalFunctionEnum::SupplyEquipmentCommunicationController,
            90 => GlobalFunctionEnum::VehicleAdapterCommunicationController,
            128 => GlobalFunctionEnum::Reserved,
            129 => GlobalFunctionEnum::OffBoardDiagnosticServiceTool,
            130 => GlobalFunctionEnum::OnBoardDataLogger,
            131 => GlobalFunctionEnum::PCKeyboard,
            132 => GlobalFunctionEnum::SafetyRestraintSystem,
            133 => GlobalFunctionEnum::Turbocharger,
            134 => GlobalFunctionEnum::GroundBasedSpeedSensor,
            135 => GlobalFunctionEnum::Keypad,
            136 => GlobalFunctionEnum::HumiditySensor,
            137 => GlobalFunctionEnum::ThermalManagementSystemController,
            138 => GlobalFunctionEnum::BrakeStrokeAlert,
            139 => GlobalFunctionEnum::OnBoardAxleGroupScale,
            140 => GlobalFunctionEnum::OnBoardAxleGroupDisplay,
            141 => GlobalFunctionEnum::BatteryCharger,
            142 => GlobalFunctionEnum::TurbochargerCompressorBypass,
            143 => GlobalFunctionEnum::TurbochargerWastegate,
            144 => GlobalFunctionEnum::Throttle,
            145 => GlobalFunctionEnum::InertialSensor,
            146 => GlobalFunctionEnum::FuelActuator,
            147 => GlobalFunctionEnum::EngineExhaustGasRecirculation,
            148 => GlobalFunctionEnum::EngineExhaustBackpressure,
            149 => GlobalFunctionEnum::OnBoardBinWeighingScale,
            150 => GlobalFunctionEnum::OnBoardBinWeighingScaleDisplay,
            151 => GlobalFunctionEnum::EngineCylinderPressureMonitoringSystem,
            152 => GlobalFunctionEnum::ObjectDetection,
            153 => GlobalFunctionEnum::ObjectDetectionDisplay,
            154 => GlobalFunctionEnum::ObjectDetectionSensor,
            155 => GlobalFunctionEnum::PersonnelDetectionDevice,
            255 => GlobalFunctionEnum::NotAvailable,
            _ => GlobalFunctionEnum::NotAvailable,
        }
    }
}

/// Functions of the on-highway equipment industry group.
#[derive(Clone, Copy, Debug, PartialEq, Eq, Structural)]
pub enum OnHighwayEquipmentFunctionEnum {
    Tachograph,
    DoorController,
    ArticulationTurntableControl,
    BodyToVehicleInterfaceControl,
    SlopeSensor,
    RetarderDisplay,
    DifferentialLockController,
    LowVoltageDisconnect,
    RoadwayInformation,
    AutomatedDriving,
    NotAvailable,
}

impl OnHighwayEquipmentFunctionEnum {
    /// The SAE code of this entry.
    pub open spec fn spec_code(self) -> u8 {
        match self {
            OnHighwayEquipmentFunctionEnum::Tachograph => 128,
            OnHighwayEquipmentFunctionEnum::DoorController => 129,
            OnHighwayEquipmentFunctionEnum::ArticulationTurntableControl => 130,
            OnHighwayEquipmentFunctionEnum::BodyToVehicleInterfaceControl => 131,
            OnHighwayEquipmentFunctionEnum::SlopeSensor => 132,
            OnHighwayEquipmentFunctionEnum::RetarderDisplay => 134,
            OnHighwayEquipmentFunctionEnum::DifferentialLockController => 135,
            OnHighwayEquipmentFunctionEnum::LowVoltageDisconnect => 136,
            OnHighwayEquipmentFunctionEnum::RoadwayInformation => 137,
            OnHighwayEquipmentFunctionEnum::AutomatedDriving => 138,
            OnHighwayEquipmentFunctionEnum::NotAvailable => 255,
        }
    }

    pub fn as_u8(&self) -> (r: u8)
        ensures
            r == self.spec_code(),
    {
        match self {
            OnHighwayEquipmentFunctionEnum::Tachograph => 128,
            OnHighwayEquipmentFunctionEnum::DoorController => 129,
            OnHighwayEquipmentFunctionEnum::ArticulationTurntableControl => 130,
            OnHighwayEquipmentFunctionEnum::BodyToVehicleInterfaceControl => 131,
            OnHighwayEquipmentFunctionEnum::SlopeSensor => 132,
            OnHighwayEquipmentFunctionEnum::RetarderDisplay => 134,
            OnHighwayEquipmentFunctionEnum::DifferentialLockController => 135,
            OnHighwayEquipmentFunctionEnum::LowVoltageDisconnect => 136,
            OnHighwayEquipmentFunctionEnum::RoadwayInformation => 137,
            OnHighwayEquipmentFunctionEnum::AutomatedDriving => 138,
            OnHighwayEquipmentFunctionEnum::NotAvailable => 255,
        }
    }

    /// Decode an SAE code; codes without a listed entry map to `NotAvailable`.
    pub fn from_u8(value: u8) -> (r: OnHighwayEquipmentFunctionEnum)
        ensures
            (128 <= value <= 138 && value != 133) || value == 255 ==> r.spec_code() == value,
            !((128 <= value <= 138 && value != 133) || value == 255) ==> r
                == OnHighwayEquipmentFunctionEnum::NotAvailable,
    {
        match value {
            128 => OnHighwayEquipmentFunctionEnum::Tachograph,
            129 => OnHighwayEquipmentFunctionEnum::DoorController,
            130 => OnHighwayEquipmentFunctionEnum::ArticulationTurntableControl,
            131 => OnHighwayEquipmentFunctionEnum::BodyToVehicleInterfaceControl,
            132 => OnHighwayEquipmentFunctionEnum::SlopeSensor,
            134 => OnHighwayEquipmentFunctionEnum::RetarderDisplay,
            135 => OnHighwayEquipmentFunctionEnum::DifferentialLockController,
            136 => OnHighwayEquipmentFunctionEnum::LowVoltageDisconnect,
            137 => OnHighwayEquipmentFunctionEnum::RoadwayInformation,
            138 => OnHighwayEquipmentFunctionEnum::AutomatedDriving,
            255 => OnHighwayEquipmentFunctionEnum::NotAvailable,
            _ => OnHighwayEquipmentFunctionEnum::NotAvailable,
        }
    }
}

/// A function code together with the industry group that scopes it.
#[derive(Clone, Copy, Debug, PartialEq, Eq, Structural)]
pub enum FunctionEnum {
    Global(GlobalFunctionEnum),
    OnHighwayEquipment(OnHighwayEquipmentFunctionEnum),
}

impl FunctionEnum {
    /// The SAE code of this function.
    pub open spec fn spec_code(self) -> u8 {
        match self {
            FunctionEnum::Global(f) => f.spec_code(),
            FunctionEnum::OnHighwayEquipment(f) => f.spec_code(),
        }
    }

    pub fn as_u8(&self) -> (r: u8)
        ensures
            r == self.spec_code(),
    {
        match self {
            FunctionEnum::Global(f) => f.as_u8(),
            FunctionEnum::OnHighwayEquipment(f) => f.as_u8(),
        }
    }
}

} // verus!
