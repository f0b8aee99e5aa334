use blackgpib::gpib::command::Command;
use blackgpib::gpib_command::GPIBCommand;

#[test]
fn command_parse_all_variants() {
    assert_eq!(Command::from(0x14), Command::DCL);

    for i in 0..31 {
        assert_eq!(Command::from(0x20 | i), Command::MLA(i));
    }
    assert_eq!(Command::from(0x3f), Command::UNL);

    for i in 0..31 {
        assert_eq!(Command::from(0x40 | i), Command::MTA(i));
    }
    assert_eq!(Command::from(0x5f), Command::UNT);

    assert_eq!(Command::from(0x18), Command::SPE);
    assert_eq!(Command::from(0x19), Command::SPD);

    assert_eq!(Command::from(0x60), Command::Unsupported(0x60));
}

#[test]
fn command_serialize_all_variants() {
    let byte: u8 = Command::DCL.into();
    assert_eq!(byte, 0x14);

    for i in 0..31 {
        let byte: u8 = Command::MLA(i).into();
        assert_eq!(byte, 0x20 | i);
    }
    let byte: u8 = Command::UNL.into();
    assert_eq!(byte, 0x3f);

    for i in 0..31 {
        let byte: u8 = Command::MTA(i).into();
        assert_eq!(byte, 0x40 | i);
    }
    let byte: u8 = Command::UNT.into();
    assert_eq!(byte, 0x5f);

    let byte: u8 = Command::SPE.into();
    assert_eq!(byte, 0x18);
    let byte: u8 = Command::SPD.into();
    assert_eq!(byte, 0x19);

    let byte: u8 = Command::Unsupported(0x60).into();
    assert_eq!(byte, 0x60);
}

#[test]
fn command_round_trip_dcl() {
    let cmd = Command::DCL;
    let byte: u8 = cmd.into();
    let round_trip = Command::from(byte);
    assert_eq!(cmd, round_trip);
}

#[test]
fn command_round_trip_spe() {
    let cmd = Command::SPE;
    let byte: u8 = cmd.into();
    let round_trip = Command::from(byte);
    assert_eq!(cmd, round_trip);
}

#[test]
fn command_round_trip_spd() {
    let cmd = Command::SPD;
    let byte: u8 = cmd.into();
    let round_trip = Command::from(byte);
    assert_eq!(cmd, round_trip);
}

#[test]
fn command_round_trip_unl() {
    let cmd = Command::UNL;
    let byte: u8 = cmd.into();
    let round_trip = Command::from(byte);
    assert_eq!(cmd, round_trip);
}

#[test]
fn command_round_trip_unt() {
    let cmd = Command::UNT;
    let byte: u8 = cmd.into();
    let round_trip = Command::from(byte);
    assert_eq!(cmd, round_trip);
}

#[test]
fn command_round_trip_mla() {
    for i in 0..31 {
        let cmd = Command::MLA(i);
        let byte: u8 = cmd.into();
        let round_trip = Command::from(byte);
        assert_eq!(cmd, round_trip);
    }
}

#[test]
fn command_round_trip_mta() {
    for i in 0..31 {
        let cmd = Command::MTA(i);
        let byte: u8 = cmd.into();
        let round_trip = Command::from(byte);
        assert_eq!(cmd, round_trip);
    }
}

#[test]
fn gpib_command_parse_all_variants() {
    assert_eq!(GPIBCommand::from(0x14), GPIBCommand::DCL);

    for i in 0..31 {
        assert_eq!(GPIBCommand::from(0x20 | i), GPIBCommand::MLA(i));
    }
    assert_eq!(GPIBCommand::from(0x3f), GPIBCommand::UNL);

    for i in 0..31 {
        assert_eq!(GPIBCommand::from(0x40 | i), GPIBCommand::MTA(i));
    }
    assert_eq!(GPIBCommand::from(0x5f), GPIBCommand::UNT);

    assert_eq!(GPIBCommand::from(0x18), GPIBCommand::SPE);
    assert_eq!(GPIBCommand::from(0x19), GPIBCommand::SPD);

    assert_eq!(GPIBCommand::from(0x60), GPIBCommand::Unsupported(0x60));
}

#[test]
fn gpib_command_serialize_all_variants() {
    let byte: u8 = GPIBCommand::DCL.into();
    assert_eq!(byte, 0x14);

    for i in 0..31 {
        let byte: u8 = GPIBCommand::MLA(i).into();
        assert_eq!(byte, 0x20 | i);
    }
    let byte: u8 = GPIBCommand::UNL.into();
    assert_eq!(byte, 0x3f);

    for i in 0..31 {
        let byte: u8 = GPIBCommand::MTA(i).into();
        assert_eq!(byte, 0x40 | i);
    }
    let byte: u8 = GPIBCommand::UNT.into();
    assert_eq!(byte, 0x5f);

    let byte: u8 = GPIBCommand::SPE.into();
    assert_eq!(byte, 0x18);
    let byte: u8 = GPIBCommand::SPD.into();
    assert_eq!(byte, 0x19);

    let byte: u8 = GPIBCommand::Unsupported(0x60).into();
    assert_eq!(byte, 0x60);
}

#[test]
fn gpib_command_round_trip_dcl() {
    let cmd = GPIBCommand::DCL;
    let byte: u8 = cmd.into();
    let round_trip = GPIBCommand::from(byte);
    assert_eq!(cmd, round_trip);
}

#[test]
fn gpib_command_round_trip_spe() {
    let cmd = GPIBCommand::SPE;
    let byte: u8 = cmd.into();
    let round_trip = GPIBCommand::from(byte);
    assert_eq!(cmd, round_trip);
}

#[test]
fn gpib_command_round_trip_spd() {
    let cmd = GPIBCommand::SPD;
    let byte: u8 = cmd.into();
    let round_trip = GPIBCommand::from(byte);
    assert_eq!(cmd, round_trip);
}

#[test]
fn gpib_command_round_trip_unl() {
    let cmd = GPIBCommand::UNL;
    let byte: u8 = cmd.into();
    let round_trip = GPIBCommand::from(byte);
    assert_eq!(cmd, round_trip);
}

#[test]
fn gpib_command_round_trip_unt() {
    let cmd = GPIBCommand::UNT;
    let byte: u8 = cmd.into();
    let round_trip = GPIBCommand::from(byte);
    assert_eq!(cmd, round_trip);
}

#[test]
fn gpib_command_round_trip_mla() {
    for i in 0..31 {
        let cmd = GPIBCommand::MLA(i);
        let byte: u8 = cmd.into();
        let round_trip = GPIBCommand::from(byte);
        assert_eq!(cmd, round_trip);
    }
}

#[test]
fn gpib_command_round_trip_mta() {
    for i in 0..31 {
        let cmd = GPIBCommand::MTA(i);
        let byte: u8 = cmd.into();
        let round_trip = GPIBCommand::from(byte);
        assert_eq!(cmd, round_trip);
    }
}

#[test]
fn command_address_bits_are_kept_to_five() {
    let byte: u8 = Command::MLA(0x25).into();
    assert_eq!(byte, 0x25);
    let byte: u8 = Command::MTA(0xff).into();
    assert_eq!(byte, 0x5f);
    assert_eq!(Command::from(0xa5), Command::MLA(5));
}
