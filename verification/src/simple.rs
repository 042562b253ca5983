//! A minimal dialect of the protocol: a five-command vocabulary over plain
//! strings, a named-code reply table, and the line helpers that go with
//! them.
use crate::host::{digit_char, is_digit_char};
use crate::reply::code_of_text;
use crate::text::{first_at, first_at_exec, from_chars, lemma_first_at, push_range, push_str_chars, subvec, to_chars};
use vstd::prelude::*;

verus! {

/// The commands of the minimal dialect, over plain strings.
#[derive(PartialEq, Eq, Debug)]
pub enum Command {
    Pass { password: String },
    Nick { nickname: String, hopcount: Option<u8> },
    User { username: String, hostname: String, servername: String, realname: String },
    Ping { server1: String, server2: Option<String> },
    Pong { server1: String, server2: Option<String> },
}

/// The discriminant of a minimal command, used to key listeners.
#[derive(PartialEq, Eq, Structural, Hash, Debug, Clone, Copy)]
pub enum CommandType {
    Pass,
    Nick,
    User,
    Ping,
    Pong,
}

impl Command {
    /// The discriminant of this command.
    pub fn to_command_type(&self) -> (r: CommandType)
        ensures
            r == (match self {
                Command::Pass { .. } => CommandType::Pass,
                Command::Nick { .. } => CommandType::Nick,
                Command::User { .. } => CommandType::User,
                Command::Ping { .. } => CommandType::Ping,
                Command::Pong { .. } => CommandType::Pong,
            }),
    {
        match self {
            Command::Pass { .. } => CommandType::Pass,
            Command::Nick { .. } => CommandType::Nick,
            Command::User { .. } => CommandType::User,
            Command::Ping { .. } => CommandType::Ping,
            Command::Pong { .. } => CommandType::Pong,
        }
    }
}

/// The named numeric replies, one variant per listed code.
#[derive(PartialEq, Eq, Structural, Hash, Debug, Clone, Copy)]
pub enum ReplyType {
    RplWelcome,
    RplYourHost,
    RplCreated,
    RplMyInfo,
    RplBounce,
    RplTraceLink,
    RplTraceConnecting,
    RplTraceHandshake,
    RplTraceUnknown,
    RplTraceOperator,
    RplTraceUser,
    RplTraceServer,
    RplTraceService,
    RplTraceNewType,
    RplTraceClass,
    RplTraceReconnect,
    RplStatsLinkInfo,
    RplStatsCommands,
    RplEndOfStats,
    RplUModeIs,
    RplServList,
    RplServListEnd,
    RplStatsUptime,
    RplStatsOLine,
    RplLUserClient,
    RplLUserOp,
    RplLUserUnknown,
    RplLUserChannels,
    RplLUserMe,
    RplAdminMe,
    RplAdminLoc1,
    RplAdminLoc2,
    RplAdminEmail,
    RplTraceLog,
    RplTraceEnd,
    RplTryAgain,
    RplAway,
    RplUserHost,
    RplIsOn,
    RplUnAway,
    RplNowAway,
    RplWhoIsUser,
    RplWhoIsServer,
    RplWhoIsOperator,
    RplWhoWasUser,
    RplEndOfWho,
    RplWhoIsIdle,
    RplEndOfWhoIs,
    RplWhoIsChannels,
    RplListStart,
    RplList,
    RplListEnd,
    RplChannelModeIs,
    RplUniqOpIs,
    RplNoTopic,
    RplTopic,
    RplInviting,
    RplSummoning,
    RplInviteList,
    RplEndOfInviteList,
    RplExceptList,
    RplEndOfExceptList,
    RplVersion,
    RplWhoReply,
    RplNamReply,
    RplLinks,
    RplEndOfLinks,
    RplEndOfNames,
    RplBanList,
    RplEndOfBanList,
    RplEndOfWhoWas,
    RplInfo,
    RplMotd,
    RplEndOfInfo,
    RplMotdStart,
    RplEndOfMotd,
    RplYoureOper,
    RplRehashing,
    RplYoureService,
    RplTime,
    RplUsersStart,
    RplUsers,
    RplEndOfUsers,
    RplNoUsers,
    ErrNoSuchNick,
    ErrNoSuchServer,
    ErrNoSuchChannel,
    ErrCannotSendToChan,
    ErrTooManyChannels,
    ErrWasNoSuchNick,
    ErrTooManyTargets,
    ErrNoSuchService,
    ErrNoOrigin,
    ErrNoRecipient,
    ErrNoTextToSend,
    ErrNoTopLevel,
    ErrWildTopLevel,
    ErrBadMask,
    ErrUnknownCommand,
    ErrNoMotd,
    ErrNoAdminInfo,
    ErrFileError,
    ErrNoNicknameGiven,
    ErrErroneusNickname,
    ErrNicknameInUse,
    ErrNickCollision,
    ErrUnavailResource,
    ErrUserNotInChannel,
    ErrNotOnChannel,
    ErrUserOnChannel,
    ErrNoLogin,
    ErrSummonDisabled,
    ErrUsersDisabled,
    ErrNotRegistered,
    ErrNeedMoreParams,
    ErrAlreadyRegistred,
    ErrNoPermForHost,
    ErrPasswdMismatch,
    ErrYoureBannedCreep,
    ErrYouWillBeBanned,
    ErrKeySet,
    ErrChannelIsFull,
    ErrUnknownMode,
    ErrInviteOnlyChan,
    ErrBannedFromChan,
    ErrBadChannelKey,
    ErrBadChanMask,
    ErrNoChanModes,
    ErrBanListFull,
    ErrNoPrivileges,
    ErrChanOPrivsNeeded,
    ErrCantKillServer,
    ErrRestricted,
    ErrUniqOpPrivsNeeded,
    ErrNoOperHost,
    ErrUModeUnknownFlag,
    ErrUsersDontMatch,
}

/// The reply a named code denotes, or nothing for an unlisted code.
pub open spec fn simple_reply_of(n: int) -> Option<ReplyType> {
    if false {
        None
    } else if n == 1 {
        Some(ReplyType::RplWelcome)
    } else if n == 2 {
        Some(ReplyType::RplYourHost)
    } else if n == 3 {
        Some(ReplyType::RplCreated)
    } else if n == 4 {
        Some(ReplyType::RplMyInfo)
    } else if n == 5 {
        Some(ReplyType::RplBounce)
    } else if n == 200 {
        Some(ReplyType::RplTraceLink)
    } else if n == 201 {
        Some(ReplyType::RplTraceConnecting)
    } else if n == 202 {
        Some(ReplyType::RplTraceHandshake)
    } else if n == 203 {
        Some(ReplyType::RplTraceUnknown)
    } else if n == 204 {
        Some(ReplyType::RplTraceOperator)
    } else if n == 205 {
        Some(ReplyType::RplTraceUser)
    } else if n == 206 {
        Some(ReplyType::RplTraceServer)
    } else if n == 207 {
        Some(ReplyType::RplTraceService)
    } else if n == 208 {
        Some(ReplyType::RplTraceNewType)
    } else if n == 209 {
        Some(ReplyType::RplTraceClass)
    } else if n == 210 {
        Some(ReplyType::RplTraceReconnect)
    } else if n == 211 {
        Some(ReplyType::RplStatsLinkInfo)
    } else if n == 212 {
        Some(ReplyType::RplStatsCommands)
    } else if n == 219 {
        Some(ReplyType::RplEndOfStats)
    } else if n == 221 {
        Some(ReplyType::RplUModeIs)
    } else if n == 234 {
        Some(ReplyType::RplServList)
    } else if n == 235 {
        Some(ReplyType::RplServListEnd)
    } else if n == 242 {
        Some(ReplyType::RplStatsUptime)
    } else if n == 243 {
        Some(ReplyType::RplStatsOLine)
    } else if n == 251 {
        Some(ReplyType::RplLUserClient)
    } else if n == 252 {
        Some(ReplyType::RplLUserOp)
    } else if n == 253 {
        Some(ReplyType::RplLUserUnknown)
    } else if n == 254 {
        Some(ReplyType::RplLUserChannels)
    } else if n == 255 {
        Some(ReplyType::RplLUserMe)
    } else if n == 256 {
        Some(ReplyType::RplAdminMe)
    } else if n == 257 {
        Some(ReplyType::RplAdminLoc1)
    } else if n == 258 {
        Some(ReplyType::RplAdminLoc2)
    } else if n == 259 {
        Some(ReplyType::RplAdminEmail)
    } else if n == 261 {
        Some(ReplyType::RplTraceLog)
    } else if n == 262 {
        Some(ReplyType::RplTraceEnd)
    } else if n == 263 {
        Some(ReplyType::RplTryAgain)
    } else if n == 301 {
        Some(ReplyType::RplAway)
    } else if n == 302 {
        Some(ReplyType::RplUserHost)
    } else if n == 303 {
        Some(ReplyType::RplIsOn)
    } else if n == 305 {
        Some(ReplyType::RplUnAway)
    } else if n == 306 {
        Some(ReplyType::RplNowAway)
    } else if n == 311 {
        Some(ReplyType::RplWhoIsUser)
    } else if n == 312 {
        Some(ReplyType::RplWhoIsServer)
    } else if n == 313 {
        Some(ReplyType::RplWhoIsOperator)
    } else if n == 314 {
        Some(ReplyType::RplWhoWasUser)
    } else if n == 315 {
        Some(ReplyType::RplEndOfWho)
    } else if n == 317 {
        Some(ReplyType::RplWhoIsIdle)
    } else if n == 318 {
        Some(ReplyType::RplEndOfWhoIs)
    } else if n == 319 {
        Some(ReplyType::RplWhoIsChannels)
    } else if n == 321 {
        Some(ReplyType::RplListStart)
    } else if n == 322 {
        Some(ReplyType::RplList)
    } else if n == 323 {
        Some(ReplyType::RplListEnd)
    } else if n == 324 {
        Some(ReplyType::RplChannelModeIs)
    } else if n == 325 {
        Some(ReplyType::RplUniqOpIs)
    } else if n == 331 {
        Some(ReplyType::RplNoTopic)
    } else if n == 332 {
        Some(ReplyType::RplTopic)
    } else if n == 341 {
        Some(ReplyType::RplInviting)
    } else if n == 342 {
        Some(ReplyType::RplSummoning)
    } else if n == 346 {
        Some(ReplyType::RplInviteList)
    } else if n == 347 {
        Some(ReplyType::RplEndOfInviteList)
    } else if n == 348 {
        Some(ReplyType::RplExceptList)
    } else if n == 349 {
        Some(ReplyType::RplEndOfExceptList)
    } else if n == 351 {
        Some(ReplyType::RplVersion)
    } else if n == 352 {
        Some(ReplyType::RplWhoReply)
    } else if n == 353 {
        Some(ReplyType::RplNamReply)
    } else if n == 364 {
        Some(ReplyType::RplLinks)
    } else if n == 365 {
        Some(ReplyType::RplEndOfLinks)
    } else if n == 366 {
        Some(ReplyType::RplEndOfNames)
    } else if n == 367 {
        Some(ReplyType::RplBanList)
    } else if n == 368 {
        Some(ReplyType::RplEndOfBanList)
    } else if n == 369 {
        Some(ReplyType::RplEndOfWhoWas)
    } else if n == 371 {
        Some(ReplyType::RplInfo)
    } else if n == 372 {
        Some(ReplyType::RplMotd)
    } else if n == 374 {
        Some(ReplyType::RplEndOfInfo)
    } else if n == 375 {
        Some(ReplyType::RplMotdStart)
    } else if n == 376 {
        Some(ReplyType::RplEndOfMotd)
    } else if n == 381 {
        Some(ReplyType::RplYoureOper)
    } else if n == 382 {
        Some(ReplyType::RplRehashing)
    } else if n == 383 {
        Some(ReplyType::RplYoureService)
    } else if n == 391 {
        Some(ReplyType::RplTime)
    } else if n == 392 {
        Some(ReplyType::RplUsersStart)
    } else if n == 393 {
        Some(ReplyType::RplUsers)
    } else if n == 394 {
        Some(ReplyType::RplEndOfUsers)
    } else if n == 395 {
        Some(ReplyType::RplNoUsers)
    } else if n == 401 {
        Some(ReplyType::ErrNoSuchNick)
    } else if n == 402 {
        Some(ReplyType::ErrNoSuchServer)
    } else if n == 403 {
        Some(ReplyType::ErrNoSuchChannel)
    } else if n == 404 {
        Some(ReplyType::ErrCannotSendToChan)
    } else if n == 405 {
        Some(ReplyType::ErrTooManyChannels)
    } else if n == 406 {
        Some(ReplyType::ErrWasNoSuchNick)
    } else if n == 407 {
        Some(ReplyType::ErrTooManyTargets)
    } else if n == 408 {
        Some(ReplyType::ErrNoSuchService)
    } else if n == 409 {
        Some(ReplyType::ErrNoOrigin)
    } else if n == 411 {
        Some(ReplyType::ErrNoRecipient)
    } else if n == 412 {
        Some(ReplyType::ErrNoTextToSend)
    } else if n == 413 {
        Some(ReplyType::ErrNoTopLevel)
    } else if n == 414 {
        Some(ReplyType::ErrWildTopLevel)
    } else if n == 415 {
        Some(ReplyType::ErrBadMask)
    } else if n == 421 {
        Some(ReplyType::ErrUnknownCommand)
    } else if n == 422 {
        Some(ReplyType::ErrNoMotd)
    } else if n == 423 {
        Some(ReplyType::ErrNoAdminInfo)
    } else if n == 424 {
        Some(ReplyType::ErrFileError)
    } else if n == 431 {
        Some(ReplyType::ErrNoNicknameGiven)
    } else if n == 432 {
        Some(ReplyType::ErrErroneusNickname)
    } else if n == 433 {
        Some(ReplyType::ErrNicknameInUse)
    } else if n == 436 {
        Some(ReplyType::ErrNickCollision)
    } else if n == 437 {
        Some(ReplyType::ErrUnavailResource)
    } else if n == 441 {
        Some(ReplyType::ErrUserNotInChannel)
    } else if n == 442 {
        Some(ReplyType::ErrNotOnChannel)
    } else if n == 443 {
        Some(ReplyType::ErrUserOnChannel)
    } else if n == 444 {
        Some(ReplyType::ErrNoLogin)
    } else if n == 445 {
        Some(ReplyType::ErrSummonDisabled)
    } else if n == 446 {
        Some(ReplyType::ErrUsersDisabled)
    } else if n == 451 {
        Some(ReplyType::ErrNotRegistered)
    } else if n == 461 {
        Some(ReplyType::ErrNeedMoreParams)
    } else if n == 462 {
        Some(ReplyType::ErrAlreadyRegistred)
    } else if n == 463 {
        Some(ReplyType::ErrNoPermForHost)
    } else if n == 464 {
        Some(ReplyType::ErrPasswdMismatch)
    } else if n == 465 {
        Some(ReplyType::ErrYoureBannedCreep)
    } else if n == 466 {
        Some(ReplyType::ErrYouWillBeBanned)
    } else if n == 467 {
        Some(ReplyType::ErrKeySet)
    } else if n == 471 {
        Some(ReplyType::ErrChannelIsFull)
    } else if n == 472 {
        Some(ReplyType::ErrUnknownMode)
    } else if n == 473 {
        Some(ReplyType::ErrInviteOnlyChan)
    } else if n == 474 {
        Some(ReplyType::ErrBannedFromChan)
    } else if n == 475 {
        Some(ReplyType::ErrBadChannelKey)
    } else if n == 476 {
        Some(ReplyType::ErrBadChanMask)
    } else if n == 477 {
        Some(ReplyType::ErrNoChanModes)
    } else if n == 478 {
        Some(ReplyType::ErrBanListFull)
    } else if n == 481 {
        Some(ReplyType::ErrNoPrivileges)
    } else if n == 482 {
        Some(ReplyType::ErrChanOPrivsNeeded)
    } else if n == 483 {
        Some(ReplyType::ErrCantKillServer)
    } else if n == 484 {
        Some(ReplyType::ErrRestricted)
    } else if n == 485 {
        Some(ReplyType::ErrUniqOpPrivsNeeded)
    } else if n == 491 {
        Some(ReplyType::ErrNoOperHost)
    } else if n == 501 {
        Some(ReplyType::ErrUModeUnknownFlag)
    } else if n == 502 {
        Some(ReplyType::ErrUsersDontMatch)
    } else {
        None
    }
}

/// Whether a reply prefix token is a listed three-digit code.
pub open spec fn simple_prefix_ok(p: Seq<char>) -> bool {
    p.len() == 3 && digit_char(p[0]) && digit_char(p[1]) && digit_char(p[2]) && simple_reply_of(
        code_of_text(p),
    ) is Some
}

/// Split a reply line into its named code and the remainder after the
/// first space.
#[verifier::rlimit(50)]
pub fn from_raw(raw_reply: &str) -> (r: Option<(ReplyType, String)>)
    ensures
        ({
            let s = raw_reply@;
            let d = first_at(s, ' ');
            let p = if d < s.len() {
                s.take(d)
            } else {
                s
            };
            &&& r is Some <==> simple_prefix_ok(p)
            &&& match r {
                Some((rt, body)) => Some(rt) == simple_reply_of(code_of_text(p)) && body@ == (
                if d < s.len() {
                    s.skip(d + 1)
                } else {
                    Seq::<char>::empty()
                }),
                None => true,
            }
        }),
{
    let v = to_chars(raw_reply);
    proof {
        lemma_first_at(v@, ' ');
    }
    let d = first_at_exec(&v, ' ');
    let p = subvec(&v, 0, if d < v.len() {
        d
    } else {
        v.len()
    });
    proof {
        if (d as int) < v@.len() {
            assert(p@ =~= v@.take(d as int));
        } else {
            assert(p@ =~= v@);
        }
    }
    if p.len() != 3 {
        return None;
    }
    if !is_digit_char(p[0]) || !is_digit_char(p[1]) || !is_digit_char(p[2]) {
        return None;
    }
    let n: u32 = 100 * (p[0] as u32 - 48) + 10 * (p[1] as u32 - 48) + (p[2] as u32 - 48);
    let rt = match n {
            1 => Some(ReplyType::RplWelcome),
            2 => Some(ReplyType::RplYourHost),
            3 => Some(ReplyType::RplCreated),
            4 => Some(ReplyType::RplMyInfo),
            5 => Some(ReplyType::RplBounce),
            200 => Some(ReplyType::RplTraceLink),
            201 => Some(ReplyType::RplTraceConnecting),
            202 => Some(ReplyType::RplTraceHandshake),
            203 => Some(ReplyType::RplTraceUnknown),
            204 => Some(ReplyType::RplTraceOperator),
            205 => Some(ReplyType::RplTraceUser),
            206 => Some(ReplyType::RplTraceServer),
            207 => Some(ReplyType::RplTraceService),
            208 => Some(ReplyType::RplTraceNewType),
            209 => Some(ReplyType::RplTraceClass),
            210 => Some(ReplyType::RplTraceReconnect),
            211 => Some(ReplyType::RplStatsLinkInfo),
            212 => Some(ReplyType::RplStatsCommands),
            219 => Some(ReplyType::RplEndOfStats),
            221 => Some(ReplyType::RplUModeIs),
            234 => Some(ReplyType::RplServList),
            235 => Some(ReplyType::RplServListEnd),
            242 => Some(ReplyType::RplStatsUptime),
            243 => Some(ReplyType::RplStatsOLine),
            251 => Some(ReplyType::RplLUserClient),
            252 => Some(ReplyType::RplLUserOp),
            253 => Some(ReplyType::RplLUserUnknown),
            254 => Some(ReplyType::RplLUserChannels),
            255 => Some(ReplyType::RplLUserMe),
            256 => Some(ReplyType::RplAdminMe),
            257 => Some(ReplyType::RplAdminLoc1),
            258 => Some(ReplyType::RplAdminLoc2),
            259 => Some(ReplyType::RplAdminEmail),
            261 => Some(ReplyType::RplTraceLog),
            262 => Some(ReplyType::RplTraceEnd),
            263 => Some(ReplyType::RplTryAgain),
            301 => Some(ReplyType::RplAway),
            302 => Some(ReplyType::RplUserHost),
            303 => Some(ReplyType::RplIsOn),
            305 => Some(ReplyType::RplUnAway),
            306 => Some(ReplyType::RplNowAway),
            311 => Some(ReplyType::RplWhoIsUser),
            312 => Some(ReplyType::RplWhoIsServer),
            313 => Some(ReplyType::RplWhoIsOperator),
            314 => Some(ReplyType::RplWhoWasUser),
            315 => Some(ReplyType::RplEndOfWho),
            317 => Some(ReplyType::RplWhoIsIdle),
            318 => Some(ReplyType::RplEndOfWhoIs),
            319 => Some(ReplyType::RplWhoIsChannels),
            321 => Some(ReplyType::RplListStart),
            322 => Some(ReplyType::RplList),
            323 => Some(ReplyType::RplListEnd),
            324 => Some(ReplyType::RplChannelModeIs),
            325 => Some(ReplyType::RplUniqOpIs),
            331 => Some(ReplyType::RplNoTopic),
            332 => Some(ReplyType::RplTopic),
            341 => Some(ReplyType::RplInviting),
            342 => Some(ReplyType::RplSummoning),
            346 => Some(ReplyType::RplInviteList),
            347 => Some(ReplyType::RplEndOfInviteList),
            348 => Some(ReplyType::RplExceptList),
            349 => Some(ReplyType::RplEndOfExceptList),
            351 => Some(ReplyType::RplVersion),
            352 => Some(ReplyType::RplWhoReply),
            353 => Some(ReplyType::RplNamReply),
            364 => Some(ReplyType::RplLinks),
            365 => Some(ReplyType::RplEndOfLinks),
            366 => Some(ReplyType::RplEndOfNames),
            367 => Some(ReplyType::RplBanList),
            368 => Some(ReplyType::RplEndOfBanList),
            369 => Some(ReplyType::RplEndOfWhoWas),
            371 => Some(ReplyType::RplInfo),
            372 => Some(ReplyType::RplMotd),
            374 => Some(ReplyType::RplEndOfInfo),
            375 => Some(ReplyType::RplMotdStart),
            376 => Some(ReplyType::RplEndOfMotd),
            381 => Some(ReplyType::RplYoureOper),
            382 => Some(ReplyType::RplRehashing),
            383 => Some(ReplyType::RplYoureService),
            391 => Some(ReplyType::RplTime),
            392 => Some(ReplyType::RplUsersStart),
            393 => Some(ReplyType::RplUsers),
            394 => Some(ReplyType::RplEndOfUsers),
            395 => Some(ReplyType::RplNoUsers),
            401 => Some(ReplyType::ErrNoSuchNick),
            402 => Some(ReplyType::ErrNoSuchServer),
            403 => Some(ReplyType::ErrNoSuchChannel),
            404 => Some(ReplyType::ErrCannotSendToChan),
            405 => Some(ReplyType::ErrTooManyChannels),
            406 => Some(ReplyType::ErrWasNoSuchNick),
            407 => Some(ReplyType::ErrTooManyTargets),
            408 => Some(ReplyType::ErrNoSuchService),
            409 => Some(ReplyType::ErrNoOrigin),
            411 => Some(ReplyType::ErrNoRecipient),
            412 => Some(ReplyType::ErrNoTextToSend),
            413 => Some(ReplyType::ErrNoTopLevel),
            414 => Some(ReplyType::ErrWildTopLevel),
            415 => Some(ReplyType::ErrBadMask),
            421 => Some(ReplyType::ErrUnknownCommand),
            422 => Some(ReplyType::ErrNoMotd),
            423 => Some(ReplyType::ErrNoAdminInfo),
            424 => Some(ReplyType::ErrFileError),
            431 => Some(ReplyType::ErrNoNicknameGiven),
            432 => Some(ReplyType::ErrErroneusNickname),
            433 => Some(ReplyType::ErrNicknameInUse),
            436 => Some(ReplyType::ErrNickCollision),
            437 => Some(ReplyType::ErrUnavailResource),
            441 => Some(ReplyType::ErrUserNotInChannel),
            442 => Some(ReplyType::ErrNotOnChannel),
            443 => Some(ReplyType::ErrUserOnChannel),
            444 => Some(ReplyType::ErrNoLogin),
            445 => Some(ReplyType::ErrSummonDisabled),
            446 => Some(ReplyType::ErrUsersDisabled),
            451 => Some(ReplyType::ErrNotRegistered),
            461 => Some(ReplyType::ErrNeedMoreParams),
            462 => Some(ReplyType::ErrAlreadyRegistred),
            463 => Some(ReplyType::ErrNoPermForHost),
            464 => Some(ReplyType::ErrPasswdMismatch),
            465 => Some(ReplyType::ErrYoureBannedCreep),
            466 => Some(ReplyType::ErrYouWillBeBanned),
            467 => Some(ReplyType::ErrKeySet),
            471 => Some(ReplyType::ErrChannelIsFull),
            472 => Some(ReplyType::ErrUnknownMode),
            473 => Some(ReplyType::ErrInviteOnlyChan),
            474 => Some(ReplyType::ErrBannedFromChan),
            475 => Some(ReplyType::ErrBadChannelKey),
            476 => Some(ReplyType::ErrBadChanMask),
            477 => Some(ReplyType::ErrNoChanModes),
            478 => Some(ReplyType::ErrBanListFull),
            481 => Some(ReplyType::ErrNoPrivileges),
            482 => Some(ReplyType::ErrChanOPrivsNeeded),
            483 => Some(ReplyType::ErrCantKillServer),
            484 => Some(ReplyType::ErrRestricted),
            485 => Some(ReplyType::ErrUniqOpPrivsNeeded),
            491 => Some(ReplyType::ErrNoOperHost),
            501 => Some(ReplyType::ErrUModeUnknownFlag),
            502 => Some(ReplyType::ErrUsersDontMatch),
        _ => None,
    };
    match rt {
        None => None,
        Some(rt) => {
            let body: String = if d < v.len() {
                let b = subvec(&v, d + 1, v.len());
                proof {
                    assert(b@ =~= v@.skip(d + 1));
                }
                from_chars(&b)
            } else {
                let b: Vec<char> = Vec::new();
                from_chars(&b)
            };
            Some((rt, body))
        },
    }
}

/// The same table, under the name the raw line reader uses.
#[verifier::rlimit(50)]
pub fn raw_to_reply(raw_reply: &str) -> (r: Option<(ReplyType, String)>)
    ensures
        ({
            let s = raw_reply@;
            let d = first_at(s, ' ');
            let p = if d < s.len() {
                s.take(d)
            } else {
                s
            };
            &&& r is Some <==> simple_prefix_ok(p)
            &&& match r {
                Some((rt, body)) => Some(rt) == simple_reply_of(code_of_text(p)) && body@ == (
                if d < s.len() {
                    s.skip(d + 1)
                } else {
                    Seq::<char>::empty()
                }),
                None => true,
            }
        }),
{
    from_raw(raw_reply)
}

/// Take a `:`-led server name off the front of a line, leaving the rest.
pub fn split_server_name(raw_message: &mut String) -> (r: Option<String>)
    ensures
        ({
            let s = old(raw_message)@;
            if s.len() > 0 && s[0] == ':' && first_at(s, ' ') < s.len() {
                let d = first_at(s, ' ');
                let kept = final(raw_message)@;
                r is Some && (r matches Some(name) ==> name@ == s.subrange(1, d)) && kept == s.skip(
                    d + 1,
                )
            } else {
                r is None && final(raw_message)@ == s
            }
        }),
{
    let v = to_chars(raw_message.as_str());
    proof {
        lemma_first_at(v@, ' ');
    }
    if v.len() == 0 || v[0] != ':' {
        return None;
    }
    let d = first_at_exec(&v, ' ');
    if d >= v.len() {
        return None;
    }
    let name = subvec(&v, 1, d);
    let rest = subvec(&v, d + 1, v.len());
    proof {
        assert(name@ =~= v@.subrange(1, d as int));
        assert(rest@ =~= v@.skip(d + 1));
    }
    *raw_message = from_chars(&rest);
    Some(from_chars(&name))
}

} // verus!
