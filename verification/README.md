# Verification Officer

A Discord bot that handles the verification of members who join the ÜNOG
Discord server: members fill in a form, admins approve the submission with a
button, and the bot gives the member their nickname and the verified role.

The bot's decisions live in the library under `src/`, written in Verus and
proved against their contracts:

- `command`: the program's command line (`create_verification_message
  {channel_id}`) and the verification message it posts.
- `interaction`: the interaction model, which handler an interaction goes
  to, and how a failure is answered.
- `interaction::verify`: the verification form, the submission built from a
  filled-in form, and the approval read back from a submission.
- `interaction::verification`: the short form (name, surname, details).
- `name`: the nickname form of a member's name.
- `mention`, `decimal`, `text`, `message`, `limits`: mentions, Discord ids
  in decimal, text helpers, outgoing messages, and Discord's limits.

The program around it, under `app/`, reads the configuration from the
environment, talks to Discord through the twilight and sparkle-convenience
crates, and carries out what the library decides.

Configuration (environment variables, `.env` files are read too):
`BOT_TOKEN`, `LOGGING_CHANNEL_ID`, `VERIFICATION_SUBMISSIONS_CHANNEL_ID`,
`VERIFICATION_APPROVALS_CHANNEL_ID`, `VERIFIED_ROLE_ID` and
`VERIFIED_LOGGING_CHANNEL_ID`.
