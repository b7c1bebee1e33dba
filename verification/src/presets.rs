//! The fixed catalog of preset commands offered to the configuration
//! surface: label, command and description of each.

use vstd::prelude::*;

verus! {

/// The preset catalog, entry by entry: label, command, description.
pub open spec fn spec_preset_catalog() -> Seq<(Seq<char>, Seq<char>, Seq<char>)> {
    seq![
        ("Vol +"@, "wpctl set-volume @DEFAULT_AUDIO_SINK@ 5%+"@, "Subir volumen"@),
        ("Vol -"@, "wpctl set-volume @DEFAULT_AUDIO_SINK@ 5%-"@, "Bajar volumen"@),
        ("Mute"@, "wpctl set-mute @DEFAULT_AUDIO_SINK@ toggle"@, "Silenciar/Activar audio"@),
        ("Play/Pause"@, "playerctl play-pause"@, "Reproducir/Pausar media"@),
        ("Next"@, "playerctl next"@, "Siguiente pista"@),
        ("Prev"@, "playerctl previous"@, "Pista anterior"@),
        ("Firefox"@, "firefox"@, "Navegador Firefox"@),
        ("Chrome"@, "google-chrome-stable || chromium"@, "Navegador Chrome/Chromium"@),
        ("Terminal"@, "kitty || alacritty || gnome-terminal"@, "Terminal"@),
        ("Files"@, "thunar || nautilus || dolphin"@, "Administrador de archivos"@),
        ("VS Code"@, "code || codium"@, "Visual Studio Code"@),
        ("Discord"@, "discord"@, "Discord"@),
        ("Spotify"@, "spotify"@, "Spotify"@),
        ("Steam"@, "steam"@, "Steam"@),
        ("OBS"@, "obs"@, "OBS Studio"@),
        ("YouTube"@, "__URL_https://youtube.com"@, "Abrir YouTube"@),
        ("Twitch"@, "__URL_https://twitch.tv"@, "Abrir Twitch"@),
        ("GitHub"@, "__URL_https://github.com"@, "Abrir GitHub"@),
        ("Twitter/X"@, "__URL_https://x.com"@, "Abrir Twitter/X"@),
        ("ChatGPT"@, "__URL_https://chat.openai.com"@, "Abrir ChatGPT"@),
        ("Copiar"@, "__KEY_ctrl+c"@, "Ctrl+C - Copiar"@),
        ("Pegar"@, "__KEY_ctrl+v"@, "Ctrl+V - Pegar"@),
        ("Cortar"@, "__KEY_ctrl+x"@, "Ctrl+X - Cortar"@),
        ("Deshacer"@, "__KEY_ctrl+z"@, "Ctrl+Z - Deshacer"@),
        ("Rehacer"@, "__KEY_ctrl+shift+z"@, "Ctrl+Shift+Z - Rehacer"@),
        ("Guardar"@, "__KEY_ctrl+s"@, "Ctrl+S - Guardar"@),
        ("Buscar"@, "__KEY_ctrl+f"@, "Ctrl+F - Buscar"@),
        ("Seleccionar todo"@, "__KEY_ctrl+a"@, "Ctrl+A - Seleccionar todo"@),
        ("Cerrar ventana"@, "__KEY_alt+f4"@, "Alt+F4 - Cerrar ventana"@),
        ("Cambiar ventana"@, "__KEY_alt+tab"@, "Alt+Tab - Cambiar ventana"@),
        ("Pantalla completa"@, "__KEY_f11"@, "F11 - Pantalla completa"@),
        ("Emoji picker"@, "__KEY_super+period"@, "Super+. - Selector de emojis"@),
        ("Email"@, "__TYPE_tucorreo@ejemplo.com"@, "Escribir email (editar)"@),
        ("Saludo"@, "__TYPE_¡Hola! ¿Cómo estás?"@, "Escribir saludo"@),
        ("Firma"@, "__TYPE_Saludos cordiales"@, "Escribir firma"@),
        ("Abrir+Escribir"@, "__MULTI_firefox;;__DELAY_2000;;__TYPE_https://google.com"@, "Abrir Firefox y escribir URL"@),
        ("Copy+Paste"@, "__MULTI___KEY_ctrl+c;;__DELAY_500;;__KEY_ctrl+v"@, "Copiar y pegar"@),
        ("Reloj"@, "__CLOCK__"@, "Muestra hora actual (HH:MM)"@),
        ("Reloj+Seg"@, "__CLOCK_S__"@, "Muestra hora con segundos"@),
        ("Fecha"@, "__DATE__"@, "Muestra fecha (DD/MM)"@),
        ("Fecha completa"@, "__DATE_FULL__"@, "Muestra fecha completa"@),
        ("Día semana"@, "__WEEKDAY__"@, "Muestra día de la semana"@),
        ("CPU %"@, "__CPU__"@, "Muestra uso de CPU"@),
        ("RAM %"@, "__RAM__"@, "Muestra uso de RAM"@),
        ("Temp CPU"@, "__TEMP__"@, "Muestra temperatura CPU"@),
        ("Timer 1m"@, "__TIMER_1__"@, "Temporizador 1 minuto"@),
        ("Timer 5m"@, "__TIMER_5__"@, "Temporizador 5 minutos"@),
        ("Timer 10m"@, "__TIMER_10__"@, "Temporizador 10 minutos"@),
        ("Timer 15m"@, "__TIMER_15__"@, "Temporizador 15 minutos"@),
        ("Timer 30m"@, "__TIMER_30__"@, "Temporizador 30 minutos"@),
        ("OBS Stream"@, "__OBS_STREAM__"@, "Iniciar/Detener streaming"@),
        ("OBS Record"@, "__OBS_RECORD__"@, "Iniciar/Detener grabación"@),
        ("OBS Mute"@, "__OBS_MUTE__"@, "Mutear/Desmutear micrófono"@),
        ("OBS Status"@, "__OBS_STATUS__"@, "Widget: muestra LIVE/REC"@),
        ("Escena 1"@, "__OBS_SCENE_Scene"@, "Cambiar a escena (editar nombre)"@),
        ("Escena Gaming"@, "__OBS_SCENE_Gaming"@, "Cambiar a escena Gaming"@),
        ("Escena Webcam"@, "__OBS_SCENE_Webcam"@, "Cambiar a escena Webcam"@),
        ("Escena BRB"@, "__OBS_SCENE_BRB"@, "Cambiar a escena BRB"@),
        ("Twitch Viewers"@, "__TWITCH_VIEWERS__"@, "Widget: muestra viewers actuales"@),
        ("Twitch Followers"@, "__TWITCH_FOLLOWERS__"@, "Widget: muestra total followers"@),
        ("Twitch Clip"@, "__TWITCH_CLIP__"@, "Crear clip del stream"@),
        ("Ad 30s"@, "__TWITCH_AD_30__"@, "Comercial de 30 segundos"@),
        ("Ad 60s"@, "__TWITCH_AD_60__"@, "Comercial de 60 segundos"@),
        ("Ad 90s"@, "__TWITCH_AD_90__"@, "Comercial de 90 segundos"@),
        ("Chat Hola"@, "__TWITCH_CHAT_¡Hola chat!"@, "Enviar mensaje al chat"@),
        ("Chat BRB"@, "__TWITCH_CHAT_BRB - Vuelvo en un momento"@, "Enviar BRB al chat"@),
        ("WS 1"@, "hyprctl dispatch workspace 1"@, "Ir a workspace 1"@),
        ("WS 2"@, "hyprctl dispatch workspace 2"@, "Ir a workspace 2"@),
        ("WS 3"@, "hyprctl dispatch workspace 3"@, "Ir a workspace 3"@),
        ("WS 4"@, "hyprctl dispatch workspace 4"@, "Ir a workspace 4"@),
        ("WS 5"@, "hyprctl dispatch workspace 5"@, "Ir a workspace 5"@),
        ("Screenshot"@, "grim -g \"$(slurp)\" - | wl-copy"@, "Captura de pantalla"@),
        ("Lock"@, "swaylock || i3lock"@, "Bloquear pantalla"@),
        ("Suspend"@, "systemctl suspend"@, "Suspender sistema"@),
        (">> Next"@, "__NEXT_PAGE__"@, "Siguiente página"@),
        ("<< Prev"@, "__PREV_PAGE__"@, "Página anterior"@),
        ("Home"@, "__PAGE_0__"@, "Ir a página principal"@),
    ]
}

/// Hands out the fixed catalog of preset commands: every entry exactly as
/// `spec_preset_catalog` lists it.
pub fn get_preset_commands() -> (r: Vec<(String, String, String)>)
    ensures
        r@.map_values(|t: (String, String, String)| (t.0@, t.1@, t.2@)) == spec_preset_catalog(),
        r@.len() == 77,
{
    let mut r: Vec<(String, String, String)> = Vec::new();
    r.push((String::from_str("Vol +"), String::from_str("wpctl set-volume @DEFAULT_AUDIO_SINK@ 5%+"), String::from_str("Subir volumen")));
    r.push((String::from_str("Vol -"), String::from_str("wpctl set-volume @DEFAULT_AUDIO_SINK@ 5%-"), String::from_str("Bajar volumen")));
    r.push((String::from_str("Mute"), String::from_str("wpctl set-mute @DEFAULT_AUDIO_SINK@ toggle"), String::from_str("Silenciar/Activar audio")));
    r.push((String::from_str("Play/Pause"), String::from_str("playerctl play-pause"), String::from_str("Reproducir/Pausar media")));
    r.push((String::from_str("Next"), String::from_str("playerctl next"), String::from_str("Siguiente pista")));
    r.push((String::from_str("Prev"), String::from_str("playerctl previous"), String::from_str("Pista anterior")));
    r.push((String::from_str("Firefox"), String::from_str("firefox"), String::from_str("Navegador Firefox")));
    r.push((String::from_str("Chrome"), String::from_str("google-chrome-stable || chromium"), String::from_str("Navegador Chrome/Chromium")));
    r.push((String::from_str("Terminal"), String::from_str("kitty || alacritty || gnome-terminal"), String::from_str("Terminal")));
    r.push((String::from_str("Files"), String::from_str("thunar || nautilus || dolphin"), String::from_str("Administrador de archivos")));
    r.push((String::from_str("VS Code"), String::from_str("code || codium"), String::from_str("Visual Studio Code")));
    r.push((String::from_str("Discord"), String::from_str("discord"), String::from_str("Discord")));
    r.push((String::from_str("Spotify"), String::from_str("spotify"), String::from_str("Spotify")));
    r.push((String::from_str("Steam"), String::from_str("steam"), String::from_str("Steam")));
    r.push((String::from_str("OBS"), String::from_str("obs"), String::from_str("OBS Studio")));
    r.push((String::from_str("YouTube"), String::from_str("__URL_https://youtube.com"), String::from_str("Abrir YouTube")));
    r.push((String::from_str("Twitch"), String::from_str("__URL_https://twitch.tv"), String::from_str("Abrir Twitch")));
    r.push((String::from_str("GitHub"), String::from_str("__URL_https://github.com"), String::from_str("Abrir GitHub")));
    r.push((String::from_str("Twitter/X"), String::from_str("__URL_https://x.com"), String::from_str("Abrir Twitter/X")));
    r.push((String::from_str("ChatGPT"), String::from_str("__URL_https://chat.openai.com"), String::from_str("Abrir ChatGPT")));
    r.push((String::from_str("Copiar"), String::from_str("__KEY_ctrl+c"), String::from_str("Ctrl+C - Copiar")));
    r.push((String::from_str("Pegar"), String::from_str("__KEY_ctrl+v"), String::from_str("Ctrl+V - Pegar")));
    r.push((String::from_str("Cortar"), String::from_str("__KEY_ctrl+x"), String::from_str("Ctrl+X - Cortar")));
    r.push((String::from_str("Deshacer"), String::from_str("__KEY_ctrl+z"), String::from_str("Ctrl+Z - Deshacer")));
    r.push((String::from_str("Rehacer"), String::from_str("__KEY_ctrl+shift+z"), String::from_str("Ctrl+Shift+Z - Rehacer")));
    r.push((String::from_str("Guardar"), String::from_str("__KEY_ctrl+s"), String::from_str("Ctrl+S - Guardar")));
    r.push((String::from_str("Buscar"), String::from_str("__KEY_ctrl+f"), String::from_str("Ctrl+F - Buscar")));
    r.push((String::from_str("Seleccionar todo"), String::from_str("__KEY_ctrl+a"), String::from_str("Ctrl+A - Seleccionar todo")));
    r.push((String::from_str("Cerrar ventana"), String::from_str("__KEY_alt+f4"), String::from_str("Alt+F4 - Cerrar ventana")));
    r.push((String::from_str("Cambiar ventana"), String::from_str("__KEY_alt+tab"), String::from_str("Alt+Tab - Cambiar ventana")));
    r.push((String::from_str("Pantalla completa"), String::from_str("__KEY_f11"), String::from_str("F11 - Pantalla completa")));
    r.push((String::from_str("Emoji picker"), String::from_str("__KEY_super+period"), String::from_str("Super+. - Selector de emojis")));
    r.push((String::from_str("Email"), String::from_str("__TYPE_tucorreo@ejemplo.com"), String::from_str("Escribir email (editar)")));
    r.push((String::from_str("Saludo"), String::from_str("__TYPE_¡Hola! ¿Cómo estás?"), String::from_str("Escribir saludo")));
    r.push((String::from_str("Firma"), String::from_str("__TYPE_Saludos cordiales"), String::from_str("Escribir firma")));
    r.push((String::from_str("Abrir+Escribir"), String::from_str("__MULTI_firefox;;__DELAY_2000;;__TYPE_https://google.com"), String::from_str("Abrir Firefox y escribir URL")));
    r.push((String::from_str("Copy+Paste"), String::from_str("__MULTI___KEY_ctrl+c;;__DELAY_500;;__KEY_ctrl+v"), String::from_str("Copiar y pegar")));
    r.push((String::from_str("Reloj"), String::from_str("__CLOCK__"), String::from_str("Muestra hora actual (HH:MM)")));
    r.push((String::from_str("Reloj+Seg"), String::from_str("__CLOCK_S__"), String::from_str("Muestra hora con segundos")));
    r.push((String::from_str("Fecha"), String::from_str("__DATE__"), String::from_str("Muestra fecha (DD/MM)")));
    r.push((String::from_str("Fecha completa"), String::from_str("__DATE_FULL__"), String::from_str("Muestra fecha completa")));
    r.push((String::from_str("Día semana"), String::from_str("__WEEKDAY__"), String::from_str("Muestra día de la semana")));
    r.push((String::from_str("CPU %"), String::from_str("__CPU__"), String::from_str("Muestra uso de CPU")));
    r.push((String::from_str("RAM %"), String::from_str("__RAM__"), String::from_str("Muestra uso de RAM")));
    r.push((String::from_str("Temp CPU"), String::from_str("__TEMP__"), String::from_str("Muestra temperatura CPU")));
    r.push((String::from_str("Timer 1m"), String::from_str("__TIMER_1__"), String::from_str("Temporizador 1 minuto")));
    r.push((String::from_str("Timer 5m"), String::from_str("__TIMER_5__"), String::from_str("Temporizador 5 minutos")));
    r.push((String::from_str("Timer 10m"), String::from_str("__TIMER_10__"), String::from_str("Temporizador 10 minutos")));
    r.push((String::from_str("Timer 15m"), String::from_str("__TIMER_15__"), String::from_str("Temporizador 15 minutos")));
    r.push((String::from_str("Timer 30m"), String::from_str("__TIMER_30__"), String::from_str("Temporizador 30 minutos")));
    r.push((String::from_str("OBS Stream"), String::from_str("__OBS_STREAM__"), String::from_str("Iniciar/Detener streaming")));
    r.push((String::from_str("OBS Record"), String::from_str("__OBS_RECORD__"), String::from_str("Iniciar/Detener grabación")));
    r.push((String::from_str("OBS Mute"), String::from_str("__OBS_MUTE__"), String::from_str("Mutear/Desmutear micrófono")));
    r.push((String::from_str("OBS Status"), String::from_str("__OBS_STATUS__"), String::from_str("Widget: muestra LIVE/REC")));
    r.push((String::from_str("Escena 1"), String::from_str("__OBS_SCENE_Scene"), String::from_str("Cambiar a escena (editar nombre)")));
    r.push((String::from_str("Escena Gaming"), String::from_str("__OBS_SCENE_Gaming"), String::from_str("Cambiar a escena Gaming")));
    r.push((String::from_str("Escena Webcam"), String::from_str("__OBS_SCENE_Webcam"), String::from_str("Cambiar a escena Webcam")));
    r.push((String::from_str("Escena BRB"), String::from_str("__OBS_SCENE_BRB"), String::from_str("Cambiar a escena BRB")));
    r.push((String::from_str("Twitch Viewers"), String::from_str("__TWITCH_VIEWERS__"), String::from_str("Widget: muestra viewers actuales")));
    r.push((String::from_str("Twitch Followers"), String::from_str("__TWITCH_FOLLOWERS__"), String::from_str("Widget: muestra total followers")));
    r.push((String::from_str("Twitch Clip"), String::from_str("__TWITCH_CLIP__"), String::from_str("Crear clip del stream")));
    r.push((String::from_str("Ad 30s"), String::from_str("__TWITCH_AD_30__"), String::from_str("Comercial de 30 segundos")));
    r.push((String::from_str("Ad 60s"), String::from_str("__TWITCH_AD_60__"), String::from_str("Comercial de 60 segundos")));
    r.push((String::from_str("Ad 90s"), String::from_str("__TWITCH_AD_90__"), String::from_str("Comercial de 90 segundos")));
    r.push((String::from_str("Chat Hola"), String::from_str("__TWITCH_CHAT_¡Hola chat!"), String::from_str("Enviar mensaje al chat")));
    r.push((String::from_str("Chat BRB"), String::from_str("__TWITCH_CHAT_BRB - Vuelvo en un momento"), String::from_str("Enviar BRB al chat")));
    r.push((String::from_str("WS 1"), String::from_str("hyprctl dispatch workspace 1"), String::from_str("Ir a workspace 1")));
    r.push((String::from_str("WS 2"), String::from_str("hyprctl dispatch workspace 2"), String::from_str("Ir a workspace 2")));
    r.push((String::from_str("WS 3"), String::from_str("hyprctl dispatch workspace 3"), String::from_str("Ir a workspace 3")));
    r.push((String::from_str("WS 4"), String::from_str("hyprctl dispatch workspace 4"), String::from_str("Ir a workspace 4")));
    r.push((String::from_str("WS 5"), String::from_str("hyprctl dispatch workspace 5"), String::from_str("Ir a workspace 5")));
    r.push((String::from_str("Screenshot"), String::from_str("grim -g \"$(slurp)\" - | wl-copy"), String::from_str("Captura de pantalla")));
    r.push((String::from_str("Lock"), String::from_str("swaylock || i3lock"), String::from_str("Bloquear pantalla")));
    r.push((String::from_str("Suspend"), String::from_str("systemctl suspend"), String::from_str("Suspender sistema")));
    r.push((String::from_str(">> Next"), String::from_str("__NEXT_PAGE__"), String::from_str("Siguiente página")));
    r.push((String::from_str("<< Prev"), String::from_str("__PREV_PAGE__"), String::from_str("Página anterior")));
    r.push((String::from_str("Home"), String::from_str("__PAGE_0__"), String::from_str("Ir a página principal")));
    proof {
        assert(r@.map_values(|t: (String, String, String)| (t.0@, t.1@, t.2@))
            =~= spec_preset_catalog());
    }
    r
}

} // verus!
