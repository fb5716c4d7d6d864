use vstd::prelude::*;

use crate::text::same_text;

verus! {

/// The texts shown once a language is set.
#[derive(Debug)]
pub struct LocalizedMessages {
    pub welcome_message: String,
    pub setup_complete: String,
    pub ready_to_play: String,
    pub next_steps: String,
}

/// The welcome, completion, readiness and next-step texts for a language code; English for
/// codes that have no texts of their own.
pub open spec fn texts_for(code: Seq<char>) -> (Seq<char>, Seq<char>, Seq<char>, Seq<char>) {
    if code == "en"@ {
        ("Welcome to Game Admin! 🎮"@, "Setup completed successfully! ✅"@, "You're all set to start gaming! 🚀"@, "Explore the dashboard and start managing your game experience."@)
    } else if code == "es"@ {
        ("¡Bienvenido a Game Admin! 🎮"@, "¡Configuración completada exitosamente! ✅"@, "¡Estás listo para comenzar a jugar! 🚀"@, "Explora el panel y comienza a gestionar tu experiencia de juego."@)
    } else if code == "fr"@ {
        ("Bienvenue sur Game Admin ! 🎮"@, "Configuration terminée avec succès ! ✅"@, "Vous êtes prêt à commencer à jouer ! 🚀"@, "Explorez le tableau de bord et commencez à gérer votre expérience de jeu."@)
    } else if code == "de"@ {
        ("Willkommen bei Game Admin! 🎮"@, "Setup erfolgreich abgeschlossen! ✅"@, "Du bist bereit zum Spielen! 🚀"@, "Erkunde das Dashboard und beginne mit der Verwaltung deines Spielerlebnisses."@)
    } else if code == "hi"@ {
        ("Game Admin में आपका स्वागत है! 🎮"@, "सेटअप सफलतापूर्वक पूरा हुआ! ✅"@, "आप गेमिंग शुरू करने के लिए तैयार हैं! 🚀"@, "डैशबोर्ड का अन्वेषण करें और अपने गेमिंग अनुभव का प्रबंधन शुरू करें।"@)
    } else if code == "zh"@ {
        ("欢迎来到游戏管理！🎮"@, "设置成功完成！✅"@, "您已准备好开始游戏！🚀"@, "探索仪表板并开始管理您的游戏体验。"@)
    } else if code == "ja"@ {
        ("Game Adminへようこそ！🎮"@, "セットアップが正常に完了しました！✅"@, "ゲームを始める準備ができました！🚀"@, "ダッシュボードを探索し、ゲーム体験の管理を開始してください。"@)
    } else if code == "ko"@ {
        ("Game Admin에 오신 것을 환영합니다! 🎮"@, "설정이 성공적으로 완료되었습니다! ✅"@, "게임을 시작할 준비가 되었습니다! 🚀"@, "대시보드를 탐색하고 게임 경험 관리를 시작하세요."@)
    } else if code == "ar"@ {
        ("مرحباً بك في إدارة الألعاب! 🎮"@, "تم إكمال الإعداد بنجاح! ✅"@, "أنت جاهز لبدء اللعب! 🚀"@, "استكشف لوحة التحكم وابدأ في إدارة تجربة اللعب الخاصة بك."@)
    } else if code == "pt"@ {
        ("Bem-vindo ao Game Admin! 🎮"@, "Configuração concluída com sucesso! ✅"@, "Você está pronto para começar a jogar! 🚀"@, "Explore o painel e comece a gerenciar sua experiência de jogo."@)
    } else if code == "ru"@ {
        ("Добро пожаловать в Game Admin! 🎮"@, "Настройка успешно завершена! ✅"@, "Вы готовы начать играть! 🚀"@, "Исследуйте панель управления и начните управлять своим игровым опытом."@)
    } else {
        ("Welcome to Game Admin! 🎮"@, "Setup completed successfully! ✅"@, "You're all set to start gaming! 🚀"@, "Explore the dashboard and start managing your game experience."@)
    }
}

fn messages(welcome: &str, setup: &str, ready: &str, next: &str) -> (r: LocalizedMessages)
    ensures
        r.welcome_message@ == welcome@,
        r.setup_complete@ == setup@,
        r.ready_to_play@ == ready@,
        r.next_steps@ == next@,
{
    LocalizedMessages {
        welcome_message: welcome.to_owned(),
        setup_complete: setup.to_owned(),
        ready_to_play: ready.to_owned(),
        next_steps: next.to_owned(),
    }
}

/// The success texts in the language with this code.
pub fn get_localized_success_messages(language_code: &str) -> (r: LocalizedMessages)
    ensures
        (r.welcome_message@, r.setup_complete@, r.ready_to_play@, r.next_steps@) == texts_for(
            language_code@,
        ),
{
    if same_text(language_code, "en") {
        messages("Welcome to Game Admin! 🎮", "Setup completed successfully! ✅", "You're all set to start gaming! 🚀", "Explore the dashboard and start managing your game experience.")
    } else if same_text(language_code, "es") {
        messages("¡Bienvenido a Game Admin! 🎮", "¡Configuración completada exitosamente! ✅", "¡Estás listo para comenzar a jugar! 🚀", "Explora el panel y comienza a gestionar tu experiencia de juego.")
    } else if same_text(language_code, "fr") {
        messages("Bienvenue sur Game Admin ! 🎮", "Configuration terminée avec succès ! ✅", "Vous êtes prêt à commencer à jouer ! 🚀", "Explorez le tableau de bord et commencez à gérer votre expérience de jeu.")
    } else if same_text(language_code, "de") {
        messages("Willkommen bei Game Admin! 🎮", "Setup erfolgreich abgeschlossen! ✅", "Du bist bereit zum Spielen! 🚀", "Erkunde das Dashboard und beginne mit der Verwaltung deines Spielerlebnisses.")
    } else if same_text(language_code, "hi") {
        messages("Game Admin में आपका स्वागत है! 🎮", "सेटअप सफलतापूर्वक पूरा हुआ! ✅", "आप गेमिंग शुरू करने के लिए तैयार हैं! 🚀", "डैशबोर्ड का अन्वेषण करें और अपने गेमिंग अनुभव का प्रबंधन शुरू करें।")
    } else if same_text(language_code, "zh") {
        messages("欢迎来到游戏管理！🎮", "设置成功完成！✅", "您已准备好开始游戏！🚀", "探索仪表板并开始管理您的游戏体验。")
    } else if same_text(language_code, "ja") {
        messages("Game Adminへようこそ！🎮", "セットアップが正常に完了しました！✅", "ゲームを始める準備ができました！🚀", "ダッシュボードを探索し、ゲーム体験の管理を開始してください。")
    } else if same_text(language_code, "ko") {
        messages("Game Admin에 오신 것을 환영합니다! 🎮", "설정이 성공적으로 완료되었습니다! ✅", "게임을 시작할 준비가 되었습니다! 🚀", "대시보드를 탐색하고 게임 경험 관리를 시작하세요.")
    } else if same_text(language_code, "ar") {
        messages("مرحباً بك في إدارة الألعاب! 🎮", "تم إكمال الإعداد بنجاح! ✅", "أنت جاهز لبدء اللعب! 🚀", "استكشف لوحة التحكم وابدأ في إدارة تجربة اللعب الخاصة بك.")
    } else if same_text(language_code, "pt") {
        messages("Bem-vindo ao Game Admin! 🎮", "Configuração concluída com sucesso! ✅", "Você está pronto para começar a jogar! 🚀", "Explore o painel e comece a gerenciar sua experiência de jogo.")
    } else if same_text(language_code, "ru") {
        messages("Добро пожаловать в Game Admin! 🎮", "Настройка успешно завершена! ✅", "Вы готовы начать играть! 🚀", "Исследуйте панель управления и начните управлять своим игровым опытом.")
    } else {
        messages("Welcome to Game Admin! 🎮", "Setup completed successfully! ✅", "You're all set to start gaming! 🚀", "Explore the dashboard and start managing your game experience.")
    }
}

} // verus!
